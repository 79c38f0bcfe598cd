//! The decision core of the tailing loop. The surrounding application owns
//! the cursor; for every fetch it hands the outcome to `tail_step`, which
//! decides whether to emit a rendered line, sleep and poll again, or abort
//! — exactly one action per outcome, with no retry on any fatal path.

use vstd::prelude::*;

use crate::entry::Bookmark;
use crate::entry::Entry;
use crate::entry::Field;
use crate::entry::Value;
use crate::entry::entry_lookup;
use crate::format::serialize_value;
use crate::format::spec_value;
use crate::highlight::Highlight;
use crate::highlight::render_entry;
use crate::highlight::spec_rendered;

verus! {

/// How long the loop sleeps, in seconds, when the cursor has nothing
/// available before it polls again.
pub const POLL_SLEEP_SECS: u64 = 1;

/// What one fetch against the cursor came back with: a decoded record,
/// nothing currently available, or a decode/transport failure with its
/// message.
pub enum FetchOutcome {
    Got(Entry),
    NothingAvailable,
    DecodeFailed(String),
}

/// What the loop does next: print one rendered line and keep draining,
/// sleep `POLL_SLEEP_SECS` and poll again, or abort the run. An abort
/// carries the message to report and whether it must be surfaced even
/// when verbose reporting is off.
pub enum TailAction {
    Emit(String),
    SleepThenPoll,
    Abort { message: String, always_surface: bool },
}

/// Decides one iteration of the drain/poll loop.
///
/// A record carrying the embedded error key `$err` is a stream-level
/// error: the run aborts with a message that is surfaced unconditionally,
/// and no data line is emitted for the record. Any other record is
/// rendered and emitted. An empty fetch means sleep and poll again; a
/// failed fetch aborts, surfaced only under verbose reporting.
pub fn tail_step(outcome: FetchOutcome, h: &Highlight) -> (a: TailAction)
    ensures
        match outcome {
            FetchOutcome::Got(e) => match entry_lookup(e, "$err"@) {
                Some(v) => a matches TailAction::Abort { message, always_surface }
                    && message@ == "got error "@ + spec_value(v) && always_surface,
                None => a matches TailAction::Emit(line) && line@ == spec_rendered(e, *h),
            },
            FetchOutcome::NothingAvailable => a is SleepThenPoll,
            FetchOutcome::DecodeFailed(m) => a matches TailAction::Abort {
                message,
                always_surface,
            } && message@ == m@ && !always_surface,
        },
{
    match outcome {
        FetchOutcome::Got(e) => {
            match e.get("$err") {
                Some(v) => {
                    let mut message = String::from_str("got error ");
                    let rendered = serialize_value(v);
                    message.append(rendered.as_str());
                    TailAction::Abort { message, always_surface: true }
                },
                None => TailAction::Emit(render_entry(&e, h)),
            }
        },
        FetchOutcome::NothingAvailable => TailAction::SleepThenPoll,
        FetchOutcome::DecodeFailed(m) => TailAction::Abort {
            message: m,
            always_surface: false,
        },
    }
}

/// The filter the tailing cursor is opened with: `{ ts: { $gt: b } }`,
/// which scopes the cursor to records strictly after the bookmark.
pub fn tail_filter(b: Bookmark) -> (f: Entry)
    ensures
        f.fields@.len() == 1,
        f.fields@[0].key@ == "ts"@,
        f.fields@[0].value matches Value::Doc(inner) && inner.fields@.len() == 1
            && inner.fields@[0].key@ == "$gt"@ && inner.fields@[0].value == Value::Int(b.0),
{
    let mut inner_fields: Vec<Field> = Vec::new();
    inner_fields.push(Field { key: String::from_str("$gt"), value: Value::Int(b.0) });
    let mut outer_fields: Vec<Field> = Vec::new();
    outer_fields.push(
        Field { key: String::from_str("ts"), value: Value::Doc(Entry { fields: inner_fields }) },
    );
    Entry { fields: outer_fields }
}

} // verus!
