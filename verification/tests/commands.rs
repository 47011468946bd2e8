use niya::commands::{parse, classify_command, SlashCommand};
use niya::repl::{repl_step, usage_line, added_line, ReplStep};
use niya::types::TokenUsage;

#[test]
fn parse_quit_variants() {
    assert_eq!(parse("/quit"), SlashCommand::Quit);
    assert_eq!(parse("/q"), SlashCommand::Quit);
    assert_eq!(parse("/exit"), SlashCommand::Quit);
}

#[test]
fn parse_clear_variants() {
    assert_eq!(parse("/clear"), SlashCommand::Clear);
    assert_eq!(parse("/reset"), SlashCommand::Clear);
}

#[test]
fn parse_help_variants() {
    assert_eq!(parse("/help"), SlashCommand::Help);
    assert_eq!(parse("/h"), SlashCommand::Help);
    assert_eq!(parse("/?"), SlashCommand::Help);
}

#[test]
fn parse_add_with_path() {
    assert_eq!(
        parse("/add src/main.rs"),
        SlashCommand::Add {
            path: "src/main.rs".to_string()
        }
    );
}

#[test]
fn parse_add_without_path_is_unknown() {
    match parse("/add") {
        SlashCommand::Unknown { name } => assert!(name.contains("missing")),
        _ => panic!("Expected Unknown for /add without path"),
    }
}

#[test]
fn parse_usage() {
    assert_eq!(parse("/usage"), SlashCommand::Usage);
    assert_eq!(parse("/tokens"), SlashCommand::Usage);
}

#[test]
fn parse_unknown_command() {
    assert_eq!(
        parse("/foobar"),
        SlashCommand::Unknown {
            name: "foobar".to_string()
        }
    );
}

#[test]
fn parse_handles_whitespace() {
    assert_eq!(parse("  /quit  "), SlashCommand::Quit);
    assert_eq!(
        parse("/add   src/lib.rs  "),
        SlashCommand::Add {
            path: "src/lib.rs".to_string()
        }
    );
}

#[test]
fn parse_lowercases_the_name_only() {
    assert_eq!(parse("/QUIT"), SlashCommand::Quit);
    assert_eq!(
        parse("/Add Src/Main.rs"),
        SlashCommand::Add {
            path: "Src/Main.rs".to_string()
        }
    );
    assert_eq!(
        parse("/FooBar"),
        SlashCommand::Unknown {
            name: "foobar".to_string()
        }
    );
}

#[test]
fn parse_splits_on_first_whitespace_only() {
    assert_eq!(
        parse("/add\ta b\t"),
        SlashCommand::Add {
            path: "a b".to_string()
        }
    );
}

#[test]
fn classify_maps_names_exactly() {
    assert_eq!(classify_command("add", ""), SlashCommand::Unknown { name: "add (missing path argument)".to_string() });
    assert_eq!(classify_command("reset", "x"), SlashCommand::Clear);
    assert_eq!(classify_command("Quit", ""), SlashCommand::Unknown { name: "Quit".to_string() });
}

#[test]
fn repl_step_classifies_lines() {
    assert_eq!(repl_step("   \n"), ReplStep::Skip);
    assert_eq!(repl_step("  hello there \n"), ReplStep::Send { message: "hello there".to_string() });
    assert_eq!(repl_step("/quit\n"), ReplStep::Quit);
    assert_eq!(repl_step("/add  notes.md"), ReplStep::AddFile { path: "notes.md".to_string() });
    assert_eq!(
        repl_step("/nope"),
        ReplStep::Unknown { message: "Unknown command: /nope. Type /help for available commands.".to_string() }
    );
}

#[test]
fn repl_lines_read_as_documented() {
    let usage = TokenUsage { input_tokens: 300, output_tokens: 125 };
    assert_eq!(usage_line(&usage), "Tokens used: 300 input, 125 output (425 total)");
    assert_eq!(added_line("src/a.rs"), "Added src/a.rs to context.");
}
