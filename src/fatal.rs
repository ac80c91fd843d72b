//! The text shown when the process hits an unrecoverable fault. It is built in buffers of
//! fixed capacity, so that reporting a fault does not allocate.

use arrayvec::ArrayString;
use vstd::prelude::*;
use vstd::string::StringSliceAdditionalSpecFns;

verus! {

/// What follows the app's name in the title of a fault report.
pub const FATAL_TITLE_SUFFIX: &'static str = " - Fatal Error";

/// The first line of a fault report.
pub const FATAL_INTRO: &'static str = "Oh no! A fatal error occured.\n";

/// What precedes the issue tracker link in a fault report.
pub const BUG_NOTE: &'static str = "\n\nThis is most definitely a bug, so please file an issue at ";

#[verifier::external_type_specification]
#[verifier::external_body]
pub struct ExArrayString<const CAP: usize>(ArrayString<CAP>);

/// The bytes a title buffer holds.
pub uninterp spec fn title_bytes(s: ArrayString<64>) -> Seq<u8>;

/// The bytes a message buffer holds.
pub uninterp spec fn message_bytes(s: ArrayString<4096>) -> Seq<u8>;

/// Relies on arrayvec::ArrayString::new: an empty buffer.
#[verifier::external_body]
fn empty_title() -> (r: ArrayString<64>)
    ensures
        title_bytes(r) == Seq::<u8>::empty(),
{
    ArrayString::new()
}

/// Relies on arrayvec::ArrayString::new: an empty buffer.
#[verifier::external_body]
fn empty_message() -> (r: ArrayString<4096>)
    ensures
        message_bytes(r) == Seq::<u8>::empty(),
{
    ArrayString::new()
}

/// Relies on arrayvec::ArrayString::try_push_str: the whole string is appended where it
/// fits in the capacity left, and otherwise nothing is.
#[verifier::external_body]
fn push_title(buf: &mut ArrayString<64>, s: &str) -> (pushed: bool)
    ensures
        pushed == (title_bytes(*old(buf)).len() + s.spec_bytes().len() <= 64),
        title_bytes(*final(buf)) == if pushed {
            title_bytes(*old(buf)) + s.spec_bytes()
        } else {
            title_bytes(*old(buf))
        },
{
    buf.try_push_str(s).is_ok()
}

/// Relies on arrayvec::ArrayString::try_push_str: the whole string is appended where it
/// fits in the capacity left, and otherwise nothing is.
#[verifier::external_body]
fn push_message(buf: &mut ArrayString<4096>, s: &str) -> (pushed: bool)
    ensures
        pushed == (message_bytes(*old(buf)).len() + s.spec_bytes().len() <= 4096),
        message_bytes(*final(buf)) == if pushed {
            message_bytes(*old(buf)) + s.spec_bytes()
        } else {
            message_bytes(*old(buf))
        },
{
    buf.try_push_str(s).is_ok()
}

/// What a run of writes leaves in a buffer of `cap` bytes that holds `buf`: each piece
/// goes in whole while it fits, and the first one that does not fit ends the run.
pub open spec fn bounded_write(buf: Seq<u8>, cap: nat, pieces: Seq<Seq<u8>>) -> Seq<u8>
    decreases pieces.len(),
{
    if pieces.len() == 0 {
        buf
    } else if buf.len() + pieces[0].len() <= cap {
        bounded_write(buf + pieces[0], cap, pieces.drop_first())
    } else {
        buf
    }
}

/// The title of a fault report: the app's name and the suffix, as far as they fit.
pub open spec fn fatal_title(pretty_name: Seq<u8>) -> Seq<u8> {
    bounded_write(Seq::empty(), 64, seq![pretty_name, FATAL_TITLE_SUFFIX.spec_bytes()])
}

/// The message of a fault report: the intro and the fault, then the note and the issue
/// tracker link where there is one, each run as far as it fits.
pub open spec fn fatal_message(fault: Seq<u8>, issue_tracker: Option<Seq<u8>>) -> Seq<u8> {
    let first = bounded_write(Seq::empty(), 4096, seq![FATAL_INTRO.spec_bytes(), fault]);
    match issue_tracker {
        Some(link) => bounded_write(first, 4096, seq![BUG_NOTE.spec_bytes(), link]),
        None => first,
    }
}

proof fn lemma_two_pieces(buf: Seq<u8>, cap: nat, a: Seq<u8>, b: Seq<u8>)
    ensures
        bounded_write(buf, cap, seq![a, b]) == if buf.len() + a.len() <= cap {
            if buf.len() + a.len() + b.len() <= cap {
                buf + a + b
            } else {
                buf + a
            }
        } else {
            buf
        },
{
    reveal_with_fuel(bounded_write, 3);
    assert(seq![a, b].drop_first() =~= seq![b]);
    assert(seq![b].drop_first() =~= Seq::<Seq<u8>>::empty());
}

/// The title of the report of a fault in the app named `pretty_name`.
pub fn fatal_error_title(pretty_name: &str) -> (r: ArrayString<64>)
    ensures
        title_bytes(r) == fatal_title(pretty_name.spec_bytes()),
{
    proof {
        lemma_two_pieces(Seq::empty(), 64, pretty_name.spec_bytes(), FATAL_TITLE_SUFFIX.spec_bytes());
    }
    let mut title = empty_title();
    if push_title(&mut title, pretty_name) {
        push_title(&mut title, FATAL_TITLE_SUFFIX);
    }
    title
}

/// The message of the report of a fault described by `fault`, with a link to the issue
/// tracker where the app has one.
pub fn fatal_error_message(fault: &str, issue_tracker: Option<&str>) -> (r: ArrayString<4096>)
    ensures
        message_bytes(r) == fatal_message(
            fault.spec_bytes(),
            match issue_tracker {
                Some(link) => Some(link.spec_bytes()),
                None => None,
            },
        ),
{
    let mut message = empty_message();
    proof {
        lemma_two_pieces(Seq::empty(), 4096, FATAL_INTRO.spec_bytes(), fault.spec_bytes());
    }
    if push_message(&mut message, FATAL_INTRO) {
        push_message(&mut message, fault);
    }
    if let Some(link) = issue_tracker {
        proof {
            lemma_two_pieces(message_bytes(message), 4096, BUG_NOTE.spec_bytes(), link.spec_bytes());
        }
        if push_message(&mut message, BUG_NOTE) {
            push_message(&mut message, link);
        }
    }
    message
}

} // verus!
