//! The native functions that scripts can call, as functions on text: what
//! each writes, what it asks of the host, and what it hands back.

use crate::context::Handler;
use vstd::prelude::*;
use vstd::string::StringExecFns;

verus! {

/// What `println` adds behind the text it writes.
pub open spec fn line_terminator() -> Seq<char> {
    seq!['\n']
}

/// What a call of `handler` writes to standard output, for an argument whose
/// script-level string form is `text`: `print` the text, `println` the text
/// and a line terminator, the file reader nothing.
pub open spec fn written_by(handler: Handler, text: Seq<char>) -> Seq<char> {
    match handler {
        Handler::Print => text,
        Handler::Println => text + line_terminator(),
        Handler::ReadFileSync => Seq::empty(),
    }
}

/// What stands on standard output after `calls`, made in this order: what
/// each call writes, one behind the other.
pub open spec fn standard_output(calls: Seq<(Handler, Seq<char>)>) -> Seq<char>
    decreases calls.len(),
{
    if calls.len() == 0 {
        Seq::empty()
    } else {
        standard_output(calls.drop_last()) + written_by(calls.last().0, calls.last().1)
    }
}

/// The text that `core.print` writes for a value whose script-level string
/// form is `text`: the text itself, with nothing behind it.
pub fn print_output(text: &str) -> (out: String)
    ensures
        out@ == written_by(Handler::Print, text@),
        out@ == text@,
{
    String::from_str(text)
}

/// The text that `core.println` writes for a value whose script-level string
/// form is `text`: the text followed by one line terminator.
pub fn println_output(text: &str) -> (out: String)
    ensures
        out@ == written_by(Handler::Println, text@),
        out@ == text@ + line_terminator(),
{
    proof {
        reveal_strlit("\n");
    }
    let out = String::from_str(text).concat("\n");
    assert("\n"@ =~= line_terminator());
    out
}

/// What `fs.readFileSync` hands back to the script, given how reading the
/// file went: the file's text where it was read, and otherwise the message
/// of the failure, as a plain string in place of an error.
pub fn read_file_sync_result(outcome: Result<String, String>) -> (value: String)
    ensures
        outcome matches Ok(content) ==> value@ == content@,
        outcome matches Err(message) ==> value@ == message@,
{
    match outcome {
        Ok(content) => content,
        Err(message) => message,
    }
}

/// What the host is to do for one call of a native function.
#[derive(Debug)]
pub enum NativeAction {
    /// Write this text to standard output; the call returns nothing.
    Write(String),
    /// Read the file at this path as text; the call returns what
    /// `read_file_sync_result` makes of the outcome.
    ReadFile(String),
}

/// A native action as contracts see it.
pub enum NativeActionView {
    Write(Seq<char>),
    ReadFile(Seq<char>),
}

impl View for NativeAction {
    type V = NativeActionView;

    open spec fn view(&self) -> NativeActionView {
        match self {
            NativeAction::Write(text) => NativeActionView::Write(text@),
            NativeAction::ReadFile(path) => NativeActionView::ReadFile(path@),
        }
    }
}

/// What a call of `handler` asks of the host, for a first argument whose
/// script-level string form is `text`.
pub open spec fn action_of(handler: Handler, text: Seq<char>) -> NativeActionView {
    match handler {
        Handler::ReadFileSync => NativeActionView::ReadFile(text),
        _ => NativeActionView::Write(written_by(handler, text)),
    }
}

/// Decides what one call of a native function asks of the host.
pub fn native_call(handler: Handler, text: &str) -> (action: NativeAction)
    ensures
        action@ == action_of(handler, text@),
{
    match handler {
        Handler::Print => NativeAction::Write(print_output(text)),
        Handler::Println => NativeAction::Write(println_output(text)),
        Handler::ReadFileSync => NativeAction::ReadFile(String::from_str(text)),
    }
}

/// One call of a native function by a script.
#[derive(Debug)]
pub struct NativeCall {
    pub handler: Handler,
    pub argument: String,
}

/// The calls of `calls` as pairs of handler and argument text.
pub open spec fn calls_view(calls: Seq<NativeCall>) -> Seq<(Handler, Seq<char>)> {
    Seq::new(calls.len(), |i: int| (calls[i].handler, calls[i].argument@))
}

/// The whole of standard output after the given calls, made in this order.
pub fn transcript(calls: &Vec<NativeCall>) -> (out: String)
    ensures
        out@ == standard_output(calls_view(calls@)),
{
    let mut out = String::new();
    let mut i: usize = 0;
    assert(calls_view(calls@).take(0) =~= Seq::empty());
    while i < calls.len()
        invariant
            i <= calls@.len(),
            out@ == standard_output(calls_view(calls@).take(i as int)),
        decreases calls@.len() - i,
    {
        let ghost before = calls_view(calls@).take(i as int);
        let ghost after = calls_view(calls@).take(i + 1);
        assert(after.drop_last() =~= before);
        assert(after.last() == (calls@[i as int].handler, calls@[i as int].argument@));
        match calls[i].handler {
            Handler::Print => {
                out.append(calls[i].argument.as_str());
            },
            Handler::Println => {
                let line = println_output(calls[i].argument.as_str());
                out.append(line.as_str());
            },
            Handler::ReadFileSync => {
                assert(out@ + Seq::<char>::empty() =~= out@);
            },
        }
        i = i + 1;
    }
    assert(calls_view(calls@).take(i as int) =~= calls_view(calls@));
    out
}

/// Standard output grows by concatenation: what stands there after the
/// calls `first` followed by the calls `second` is the output of `first`
/// with the output of `second` behind it.
pub proof fn lemma_output_concatenates(
    first: Seq<(Handler, Seq<char>)>,
    second: Seq<(Handler, Seq<char>)>,
)
    ensures
        standard_output(first + second) == standard_output(first) + standard_output(second),
    decreases second.len(),
{
    if second.len() == 0 {
        assert(first + second =~= first);
        assert(standard_output(first) + standard_output(second) =~= standard_output(first));
    } else {
        assert((first + second).drop_last() =~= first + second.drop_last());
        assert((first + second).last() == second.last());
        lemma_output_concatenates(first, second.drop_last());
        let tail = written_by(second.last().0, second.last().1);
        assert((standard_output(first) + standard_output(second.drop_last())) + tail
            =~= standard_output(first) + (standard_output(second.drop_last()) + tail));
    }
}

/// A script that only prints leaves on standard output exactly the texts of
/// its arguments in call order: one call of `print` leaves its text, one call
/// of `println` its text and a line terminator, each behind what was there.
pub proof fn lemma_output_of_one_more_call(
    calls: Seq<(Handler, Seq<char>)>,
    handler: Handler,
    text: Seq<char>,
)
    ensures
        standard_output(calls.push((handler, text))) == standard_output(calls) + written_by(
            handler,
            text,
        ),
        handler == Handler::Print ==> standard_output(calls.push((handler, text)))
            == standard_output(calls) + text,
        handler == Handler::Println ==> standard_output(calls.push((handler, text)))
            == standard_output(calls) + text + line_terminator(),
{
    assert(calls.push((handler, text)).drop_last() =~= calls);
    assert(standard_output(calls) + (text + line_terminator()) =~= standard_output(calls) + text
        + line_terminator());
}

} // verus!
