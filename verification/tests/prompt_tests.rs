use script_host::prompt::PermissionRequest;
use script_host::prompt::PromptResponse;
use script_host::prompt::StackFrame;
use script_host::prompt::prompt_question;
use script_host::prompt::read_failure_notice;
use script_host::prompt::render_frame;
use script_host::prompt::render_permission_request;
use script_host::prompt::render_stack;
use script_host::prompt::response_for_line;
use script_host::prompt::response_for_read;
use script_host::text::answer_allows;
use script_host::text::str_eq;
use script_host::text::u32_decimal;

#[test]
fn allows_plain_y() {
    assert_eq!(response_for_line("y"), PromptResponse::Allow);
}

#[test]
fn allows_plain_yes() {
    assert_eq!(response_for_line("yes"), PromptResponse::Allow);
}

#[test]
fn allows_after_trimming() {
    assert_eq!(response_for_line("  y  "), PromptResponse::Allow);
    assert_eq!(response_for_line("\tyes\n"), PromptResponse::Allow);
}

#[test]
fn allows_after_trimming_unicode_whitespace() {
    assert_eq!(response_for_line("y\u{000b}"), PromptResponse::Allow);
    assert_eq!(response_for_line("\u{00a0}yes\u{3000}"), PromptResponse::Allow);
    assert_eq!(response_for_line("\u{2028}\u{202f}y\u{205f}\u{0085}"), PromptResponse::Allow);
    assert_eq!(response_for_line("\u{2000}\u{2009}YES\u{200a}\u{1680}"), PromptResponse::Allow);
}

#[test]
fn trims_exactly_what_str_trim_does() {
    for line in ["y\u{000b}", " \u{00a0}Yes\u{2029}", "\u{2007}n\u{2006}", "\u{feff}y", "y\u{200b}"] {
        let by_std = matches!(line.trim().to_lowercase().as_str(), "y" | "yes");
        let by_library = response_for_line(line) == PromptResponse::Allow;
        assert_eq!(by_library, by_std, "disagreement on {:?}", line);
    }
}

#[test]
fn allows_after_lowercasing() {
    assert_eq!(response_for_line("YES"), PromptResponse::Allow);
    assert_eq!(response_for_line(" YeS "), PromptResponse::Allow);
    assert_eq!(response_for_line("Y"), PromptResponse::Allow);
}

#[test]
fn denies_everything_else() {
    assert_eq!(response_for_line(""), PromptResponse::Deny);
    assert_eq!(response_for_line("n"), PromptResponse::Deny);
    assert_eq!(response_for_line("no"), PromptResponse::Deny);
    assert_eq!(response_for_line(" no "), PromptResponse::Deny);
    assert_eq!(response_for_line("yes please"), PromptResponse::Deny);
    assert_eq!(response_for_line("yeah"), PromptResponse::Deny);
    assert_eq!(response_for_line("ys"), PromptResponse::Deny);
    assert_eq!(response_for_line("   "), PromptResponse::Deny);
}

#[test]
fn read_failure_denies() {
    assert_eq!(response_for_read(&None), PromptResponse::Deny);
}

#[test]
fn read_success_decides_by_line() {
    assert_eq!(response_for_read(&Some("y".to_string())), PromptResponse::Allow);
    assert_eq!(response_for_read(&Some("q".to_string())), PromptResponse::Deny);
}

#[test]
fn answer_allows_matches_decision() {
    assert!(answer_allows(" Yes "));
    assert!(!answer_allows("nope"));
}

#[test]
fn renders_decimal_line_numbers() {
    assert_eq!(u32_decimal(0), "0");
    assert_eq!(u32_decimal(7), "7");
    assert_eq!(u32_decimal(10), "10");
    assert_eq!(u32_decimal(40123), "40123");
    assert_eq!(u32_decimal(4294967295), "4294967295");
}

#[test]
fn renders_full_frame() {
    let f = StackFrame {
        file_name: Some("file://main.ts".to_string()),
        function_name: Some("doFetch".to_string()),
        line_number: Some(12),
    };
    assert_eq!(render_frame(&f), "file://main.ts:doFetch:12");
}

#[test]
fn renders_defaults_for_absent_frame_fields() {
    let f = StackFrame { file_name: None, function_name: None, line_number: None };
    assert_eq!(render_frame(&f), "unknown:unknown:0");
}

#[test]
fn renders_stack_in_supplied_order() {
    let frames = vec![
        StackFrame {
            file_name: Some("a.ts".to_string()),
            function_name: Some("inner".to_string()),
            line_number: Some(3),
        },
        StackFrame {
            file_name: Some("b.ts".to_string()),
            function_name: None,
            line_number: Some(9),
        },
    ];
    assert_eq!(render_stack(&frames), "a.ts:inner:3\nb.ts:unknown:9");
}

#[test]
fn renders_empty_stack() {
    let frames: Vec<StackFrame> = vec![];
    assert_eq!(render_stack(&frames), "");
}

#[test]
fn renders_request_with_all_fields() {
    let req = PermissionRequest {
        message: "read access to ./data".to_string(),
        name: "read".to_string(),
        api_name: Some("Deno.readTextFile".to_string()),
        is_unary: true,
        stack: Some(vec![StackFrame {
            file_name: Some("file://test.ts".to_string()),
            function_name: Some("main".to_string()),
            line_number: Some(2),
        }]),
    };
    let expected = "Script is trying to access APIs and needs permission:\n\
                    Message: read access to ./data\n\
                    Name: read\n\
                    API: Deno.readTextFile\n\
                    Is unary: true\n\
                    Stack:\n\
                    file://test.ts:main:2";
    assert_eq!(render_permission_request(&req), expected);
}

#[test]
fn renders_request_without_optional_fields() {
    let req = PermissionRequest {
        message: "env access".to_string(),
        name: "env".to_string(),
        api_name: None,
        is_unary: false,
        stack: None,
    };
    let expected = "Script is trying to access APIs and needs permission:\n\
                    Message: env access\n\
                    Name: env\n\
                    Is unary: false";
    assert_eq!(render_permission_request(&req), expected);
}

#[test]
fn fixed_prompt_texts() {
    assert_eq!(prompt_question(), "Allow? [y/n]");
    assert_eq!(read_failure_notice(), "Failed to read input, denying permission");
}

#[test]
fn str_eq_agrees_with_equality() {
    assert!(str_eq("npm", "npm"));
    assert!(!str_eq("npm", "file"));
    assert!(!str_eq("npm", "npmx"));
    assert!(str_eq("", ""));
}
