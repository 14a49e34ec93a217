use wt::harness::{
    claude_argv, default_claude_argv, extract_assistant_text, launch, parse_event, split_whitespace,
    turn_line, HarnessEvent, HarnessSpec, LineBuffer, Progress,
};
use wt::json::parse;

/// The program of the built-in harness.
const PROGRAM: &str = "coder";

#[test]
fn extract_assistant_text_joins_text_blocks_and_skips_others() {
    let v = parse(
        r#"{
            "type": "assistant",
            "message": { "role": "assistant", "content": [
                { "type": "text", "text": "hello " },
                { "type": "tool_use", "name": "Bash" },
                { "type": "text", "text": "world" }
            ]}
        }"#,
    )
    .unwrap();
    assert_eq!(extract_assistant_text(&v).as_deref(), Some("hello world"));
}

#[test]
fn parse_event_maps_result_and_assistant_and_skips_system() {
    match parse_event(r#"{"type":"result","subtype":"success","is_error":false,"result":"done"}"#) {
        Some(HarnessEvent::TurnComplete { result, is_error }) => {
            assert_eq!(result, "done");
            assert!(!is_error);
        }
        other => panic!("expected TurnComplete, got {other:?}"),
    }
    assert!(matches!(
        parse_event(r#"{"type":"assistant","message":{"content":[{"type":"text","text":"hi"}]}}"#),
        Some(HarnessEvent::AssistantText(t)) if t == "hi"
    ));
    assert!(parse_event(r#"{"type":"system","subtype":"init"}"#).is_none());
    assert!(parse_event("not json").is_none());
}

#[test]
fn results_without_fields_take_the_defaults() {
    assert!(matches!(
        parse_event(r#"{"type":"result"}"#),
        Some(HarnessEvent::TurnComplete { result, is_error: false }) if result.is_empty()
    ));
    assert!(matches!(
        parse_event(r#"{"type":"result","is_error":true,"result":7}"#),
        Some(HarnessEvent::TurnComplete { result, is_error: true }) if result.is_empty()
    ));
}

#[test]
fn claude_argv_honors_override_and_appends_mode_flags() {
    // An override is returned verbatim: no mode flags injected.
    assert_eq!(
        claude_argv(Some("/bin/echo  hi   there"), PROGRAM, Some("plan"), true),
        vec!["/bin/echo", "hi", "there"]
    );

    // The built-in command: base flags, plus the requested posture.
    let base = claude_argv(None, PROGRAM, None, false);
    assert_eq!(base.first().map(String::as_str), Some(PROGRAM));
    assert!(base.iter().any(|a| a == "--input-format"));
    assert!(!base.iter().any(|a| a == "--permission-mode"));

    let plan = claude_argv(None, PROGRAM, Some("plan"), false);
    let i = plan
        .iter()
        .position(|a| a == "--permission-mode")
        .expect("plan argv has --permission-mode");
    assert_eq!(plan[i + 1], "plan");
    assert!(!plan.iter().any(|a| a == "--dangerously-skip-permissions"));

    let skip = claude_argv(None, PROGRAM, None, true);
    assert!(skip.iter().any(|a| a == "--dangerously-skip-permissions"));
    assert!(!skip.iter().any(|a| a == "--permission-mode"));
}

#[test]
fn the_default_command_streams_json() {
    assert_eq!(
        default_claude_argv(None, PROGRAM),
        vec![
            PROGRAM,
            "--print",
            "--input-format",
            "stream-json",
            "--output-format",
            "stream-json",
            "--verbose"
        ]
    );
    assert_eq!(split_whitespace(" a\tb\u{a0}c "), vec!["a", "b", "c"]);
    assert!(split_whitespace("  ").is_empty());
}

fn spec(argv: Vec<&str>, prompt: &str) -> HarnessSpec {
    HarnessSpec {
        argv: argv.into_iter().map(|s| s.to_string()).collect(),
        cwd: "/ws".to_string(),
        env: vec![],
        initial_prompt: prompt.to_string(),
        stderr_log: None,
    }
}

#[test]
fn a_launch_feeds_the_task_unless_it_is_empty() {
    let l = launch(&spec(vec![PROGRAM, "--print"], "go")).unwrap();
    assert_eq!(l.program, PROGRAM);
    assert_eq!(l.args, vec!["--print"]);
    assert_eq!(l.first_line.unwrap(), turn_line("go"));
    assert!(launch(&spec(vec![PROGRAM], "")).unwrap().first_line.is_none());
    assert!(launch(&spec(vec![], "go")).is_err());
}

#[test]
fn a_turn_is_one_line_of_json() {
    let line = turn_line("say \"hi\"\nback\\slash \u{1}");
    assert!(line.ends_with('\n'));
    assert_eq!(line.matches('\n').count(), 1);
    let v = parse(line.trim()).unwrap();
    assert_eq!(v.get("type").unwrap().as_str(), Some("user"));
    let m = v.get("message").unwrap();
    assert_eq!(m.get("role").unwrap().as_str(), Some("user"));
    assert_eq!(
        extract_assistant_text(&v).as_deref(),
        Some("say \"hi\"\nback\\slash \u{1}")
    );
}

fn drain(buffer: &mut LineBuffer) -> Vec<String> {
    let mut out = Vec::new();
    loop {
        match buffer.next_event() {
            Progress::Event(HarnessEvent::TurnComplete { result, .. }) => out.push(result),
            Progress::Event(HarnessEvent::AssistantText(t)) => out.push(t),
            Progress::Event(HarnessEvent::Exited(_)) => out.push("exited".to_string()),
            Progress::More => return out,
            Progress::TooLong => {
                out.push("too long".to_string());
                return out;
            }
        }
    }
}

#[test]
fn how_output_is_cut_into_chunks_does_not_matter() {
    let text = "{\"type\":\"result\",\"result\":\"gr\u{fc}n\"}\n\nnoise\n{\"type\":\"result\",\"result\":\"b\"}\n{\"type\"";
    let bytes = text.as_bytes();
    let mut whole = LineBuffer::new();
    whole.feed(bytes);
    let expected = drain(&mut whole);
    assert_eq!(expected, vec!["gr\u{fc}n", "b"]);
    for size in 1..7 {
        let mut b = LineBuffer::new();
        let mut got = Vec::new();
        for chunk in bytes.chunks(size) {
            b.feed(chunk);
            got.extend(drain(&mut b));
        }
        assert_eq!(got, expected);
    }
}

#[test]
fn bytes_that_are_no_text_are_replaced() {
    let mut b = LineBuffer::new();
    b.feed(b"{\"type\":\"result\",\"result\":\"x\xffy\"}\n");
    assert_eq!(drain(&mut b), vec!["x\u{fffd}y"]);
}

#[test]
fn a_line_without_an_end_is_cut_off() {
    let mut b = LineBuffer::new();
    b.feed(&vec![b'a'; wt::harness::MAX_LINE_BYTES + 1]);
    assert_eq!(drain(&mut b), vec!["too long"]);
}
