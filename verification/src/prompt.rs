//! The permission-prompt protocol: the request the engine raises when script
//! code reaches an ungranted capability check, the text the host shows the
//! operator, and the fail-closed decision rule for the operator's answer.
//!
//! The driver owns the terminal: it prints the rendered request, reads one
//! line, and hands it (or the fact that the read failed) to
//! [`response_for_read`]. Allow comes back exactly when the trimmed,
//! lowercased answer is `"y"` or `"yes"`; everything else, including a failed
//! read, denies.

use crate::text::decimal;
use crate::text::spec_answer_allows;
use crate::text::answer_allows;
use crate::text::u32_decimal;
use vstd::prelude::*;

verus! {

/// The host's answer to one permission request. The engine may know finer
/// grades; this host only ever grants or denies.
#[derive(Clone, Copy, Debug, PartialEq, Eq, Structural)]
pub enum PromptResponse {
    Allow,
    Deny,
}

/// One frame of the script call stack at the moment of a capability check;
/// diagnostic display only.
pub struct StackFrame {
    pub file_name: Option<String>,
    pub function_name: Option<String>,
    pub line_number: Option<u32>,
}

/// One capability-grant question raised by the engine. `message` and `name`
/// are always present and non-empty; `api_name` and `stack` depend on the
/// capability being checked.
pub struct PermissionRequest {
    pub message: String,
    pub name: String,
    pub api_name: Option<String>,
    pub is_unary: bool,
    pub stack: Option<Vec<StackFrame>>,
}

/// The input constraint on a request: message and capability name non-empty.
pub open spec fn request_wf(r: PermissionRequest) -> bool {
    r.message@.len() > 0 && r.name@.len() > 0
}

pub open spec fn opt_name_text(o: Option<String>) -> Seq<char> {
    match o {
        Some(s) => s@,
        None => "unknown"@,
    }
}

pub open spec fn frame_line_number(o: Option<u32>) -> nat {
    match o {
        Some(l) => l as nat,
        None => 0,
    }
}

/// One stack frame rendered as `file:function:line`, with `unknown` and `0`
/// standing in for absent fields.
pub open spec fn frame_text(f: StackFrame) -> Seq<char> {
    opt_name_text(f.file_name) + ":"@ + opt_name_text(f.function_name) + ":"@ + decimal(
        frame_line_number(f.line_number),
    )
}

/// The frames newline-joined, in the order the engine supplied them.
pub open spec fn stack_text(fs: Seq<StackFrame>) -> Seq<char>
    decreases fs.len(),
{
    if fs.len() == 0 {
        Seq::empty()
    } else if fs.len() == 1 {
        frame_text(fs[0])
    } else {
        frame_text(fs[0]) + "\n"@ + stack_text(fs.drop_first())
    }
}

/// Everything the operator is shown for one request, before the `y/n`
/// question: message, capability name, API name if present, the unary flag,
/// and the call stack if present.
pub open spec fn render_spec(req: PermissionRequest) -> Seq<char> {
    "Script is trying to access APIs and needs permission:\nMessage: "@ + req.message@
        + "\nName: "@ + req.name@ + (match req.api_name {
        Some(a) => "\nAPI: "@ + a@,
        None => Seq::<char>::empty(),
    }) + "\nIs unary: "@ + (if req.is_unary {
        "true"@
    } else {
        "false"@
    }) + (match req.stack {
        Some(fs) => "\nStack:\n"@ + stack_text(fs@),
        None => Seq::<char>::empty(),
    })
}

fn append_opt_name(out: &mut String, o: &Option<String>)
    ensures
        final(out)@ == old(out)@ + opt_name_text(*o),
{
    match o {
        Some(s) => out.append(s.as_str()),
        None => out.append("unknown"),
    }
}

/// Renders one stack frame as `file:function:line`.
pub fn render_frame(f: &StackFrame) -> (r: String)
    ensures
        r@ == frame_text(*f),
{
    let mut out = String::new();
    append_opt_name(&mut out, &f.file_name);
    out.append(":");
    append_opt_name(&mut out, &f.function_name);
    out.append(":");
    let ln: u32 = match f.line_number {
        Some(l) => l,
        None => 0,
    };
    let d = u32_decimal(ln);
    out.append(d.as_str());
    proof {
        assert(out@ =~= frame_text(*f));
    }
    out
}

proof fn lemma_stack_text_snoc(fs: Seq<StackFrame>, i: int)
    requires
        1 <= i < fs.len(),
    ensures
        stack_text(fs.take(i + 1)) == stack_text(fs.take(i)) + "\n"@ + frame_text(fs[i]),
    decreases i,
{
    if i == 1 {
        assert(fs.take(2).len() == 2);
        assert(fs.take(2)[0] == fs[0]);
        assert(fs.take(2).drop_first() =~= seq![fs[1]]);
        assert(seq![fs[1]].len() == 1);
        assert(seq![fs[1]][0] == fs[1]);
        assert(stack_text(seq![fs[1]]) == frame_text(fs[1]));
        assert(stack_text(fs.take(2)) == frame_text(fs[0]) + "\n"@ + frame_text(fs[1]));
        assert(fs.take(1).len() == 1);
        assert(fs.take(1)[0] == fs[0]);
        assert(stack_text(fs.take(1)) == frame_text(fs[0]));
    } else {
        let tail = fs.drop_first();
        lemma_stack_text_snoc(tail, i - 1);
        assert(fs.take(i + 1).drop_first() =~= tail.take(i));
        assert(fs.take(i).drop_first() =~= tail.take(i - 1));
        assert(tail[i - 1] == fs[i]);
        assert(stack_text(fs.take(i + 1)) =~= stack_text(fs.take(i)) + "\n"@ + frame_text(fs[i]));
    }
}

/// Renders the whole call stack, newline-joined, order preserved.
pub fn render_stack(fs: &Vec<StackFrame>) -> (r: String)
    ensures
        r@ == stack_text(fs@),
{
    let mut out = String::new();
    if fs.len() == 0 {
        proof {
            assert(out@ =~= stack_text(fs@));
        }
        return out;
    }
    let first = render_frame(&fs[0]);
    out.append(first.as_str());
    proof {
        assert(fs@.take(1) =~= seq![fs@[0]]);
        assert(out@ =~= stack_text(fs@.take(1)));
    }
    let mut i: usize = 1;
    while i < fs.len()
        invariant
            1 <= i <= fs@.len(),
            out@ == stack_text(fs@.take(i as int)),
        decreases fs@.len() - i,
    {
        out.append("\n");
        let line = render_frame(&fs[i]);
        out.append(line.as_str());
        proof {
            lemma_stack_text_snoc(fs@, i as int);
        }
        i = i + 1;
    }
    proof {
        assert(fs@.take(fs@.len() as int) =~= fs@);
    }
    out
}

/// Renders one permission request for the operator.
pub fn render_permission_request(req: &PermissionRequest) -> (r: String)
    ensures
        r@ == render_spec(*req),
{
    let mut out = String::from_str(
        "Script is trying to access APIs and needs permission:\nMessage: ",
    );
    out.append(req.message.as_str());
    out.append("\nName: ");
    out.append(req.name.as_str());
    match &req.api_name {
        Some(a) => {
            out.append("\nAPI: ");
            out.append(a.as_str());
        },
        None => {},
    }
    out.append("\nIs unary: ");
    if req.is_unary {
        out.append("true");
    } else {
        out.append("false");
    }
    match &req.stack {
        Some(fs) => {
            out.append("\nStack:\n");
            let st = render_stack(fs);
            out.append(st.as_str());
        },
        None => {},
    }
    proof {
        assert(out@ =~= render_spec(*req));
    }
    out
}

/// The question shown after the rendered request.
pub fn prompt_question() -> (s: String)
    ensures
        s@ == "Allow? [y/n]"@,
{
    String::from_str("Allow? [y/n]")
}

/// The notice shown when reading the operator's answer fails; the request is
/// then denied, never escalated.
pub fn read_failure_notice() -> (s: String)
    ensures
        s@ == "Failed to read input, denying permission"@,
{
    String::from_str("Failed to read input, denying permission")
}

/// The decision rule for one answer line: Allow exactly when the trimmed,
/// lowercased line is `"y"` or `"yes"`.
pub fn response_for_line(line: &str) -> (r: PromptResponse)
    ensures
        r == PromptResponse::Allow <==> spec_answer_allows(line@),
{
    if answer_allows(line) {
        PromptResponse::Allow
    } else {
        PromptResponse::Deny
    }
}

/// The decision for one read attempt: a failed read (`None`) denies; an
/// answer line decides by [`response_for_line`]. Total on every input, so a
/// prompt never raises an error to its caller.
pub fn response_for_read(line: &Option<String>) -> (r: PromptResponse)
    ensures
        (r == PromptResponse::Allow <==> (line matches Some(l) && spec_answer_allows(l@))),
        line is None ==> r == PromptResponse::Deny,
{
    match line {
        Some(l) => response_for_line(l.as_str()),
        None => PromptResponse::Deny,
    }
}

} // verus!
