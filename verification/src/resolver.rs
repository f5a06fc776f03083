//! The active-network resolver: reads the connection manager's terse listing
//! of wireless networks, one `<active>:<ssid>` per line, and finds the
//! network marked active.

use crate::gateway::{GatewayReply, ReplyModel};
use crate::model::option_view;
use crate::text::{characters, decode_lossy, lossy_text};
use vstd::prelude::*;
use vstd::string::StrSliceExecFns;
use vstd::utf8::{decode_utf8, valid_utf8};

verus! {

/// The active flag together with the delimiter that follows it.
pub open spec fn active_marker() -> Seq<char> {
    seq!['y', 'e', 's', ':']
}

/// The number of characters of `text` that stand before its first line feed,
/// or the length of `text` if it holds none.
pub open spec fn first_break(text: Seq<char>) -> nat
    decreases text.len(),
{
    if text.len() == 0 || text[0] == '\n' {
        0
    } else {
        1 + first_break(text.drop_first())
    }
}

/// A line without the carriage return that belonged to its terminator.
pub open spec fn without_carriage_return(line: Seq<char>) -> Seq<char> {
    if line.len() > 0 && line.last() == '\r' {
        line.drop_last()
    } else {
        line
    }
}

/// The lines of a listing. A line ends at a line feed, or at a carriage
/// return directly followed by one; the terminator is no part of the line.
/// The last line needs no terminator, and a carriage return that ends the
/// text without a line feed stays in its line.
pub open spec fn listing_lines(text: Seq<char>) -> Seq<Seq<char>>
    decreases text.len(),
{
    if text.len() == 0 {
        Seq::empty()
    } else {
        let n = first_break(text);
        if n >= text.len() {
            seq![text]
        } else {
            seq![without_carriage_return(text.take(n as int))] + listing_lines(
                text.skip(n as int + 1),
            )
        }
    }
}

/// Whether the line's first field is the flag of the active network.
pub open spec fn is_active_line(line: Seq<char>) -> bool {
    active_marker().is_prefix_of(line)
}

/// The identity that an active line names: the line with the marker taken
/// off its front once. A `:` further on belongs to the identity.
pub open spec fn identity_of(line: Seq<char>) -> Seq<char> {
    line.skip(active_marker().len() as int)
}

/// The identity named by the first active line, if any line is active.
pub open spec fn first_active(lines: Seq<Seq<char>>) -> Option<Seq<char>>
    decreases lines.len(),
{
    if lines.len() == 0 {
        None
    } else if is_active_line(lines[0]) {
        Some(identity_of(lines[0]))
    } else {
        first_active(lines.drop_first())
    }
}

/// Whether line `i` is active and no line before it is.
pub open spec fn is_first_active_line(lines: Seq<Seq<char>>, i: int) -> bool {
    &&& 0 <= i < lines.len()
    &&& is_active_line(lines[i])
    &&& forall|j: int| 0 <= j < i ==> !is_active_line(#[trigger] lines[j])
}

/// The active network identity that a listing reports.
pub open spec fn active_in(text: Seq<char>) -> Option<Seq<char>> {
    first_active(listing_lines(text))
}

/// The active network identity that the report of a listing command gives:
/// the one its output reports, read as text, and none where the command did
/// not do its work.
pub open spec fn resolution(reply: ReplyModel) -> Option<Seq<char>> {
    match reply {
        ReplyModel::Exited { success, stdout, stderr } => if success {
            active_in(lossy_text(stdout))
        } else {
            None
        },
        ReplyModel::NotLaunched { reason } => None,
    }
}

/// `first_break` is the one position that no line feed precedes and that
/// holds a line feed or ends the text.
pub proof fn lemma_first_break(text: Seq<char>, k: int)
    requires
        0 <= k <= text.len(),
        forall|j: int| 0 <= j < k ==> text[j] != '\n',
        k == text.len() || text[k] == '\n',
    ensures
        first_break(text) == k,
    decreases k,
{
    if k > 0 {
        lemma_first_break(text.drop_first(), k - 1);
    }
}

/// `first_active` returns the identity of the first active line, and nothing
/// exactly when no line is active.
pub proof fn lemma_first_active(lines: Seq<Seq<char>>)
    ensures
        first_active(lines) is None <==> forall|i: int|
            0 <= i < lines.len() ==> !is_active_line(#[trigger] lines[i]),
        forall|i: int| #[trigger]
            is_first_active_line(lines, i) ==> first_active(lines) == Some(identity_of(lines[i])),
    decreases lines.len(),
{
    if lines.len() > 0 && !is_active_line(lines[0]) {
        // The answer lies in the lines after the first, and line `i` of
        // these is line `i + 1` of all.
        let rest = lines.drop_first();
        lemma_first_active(rest);
        assert forall|i: int| 0 <= i < lines.len() && first_active(rest) is None
        implies !is_active_line(#[trigger] lines[i]) by {
            if i > 0 {
                assert(lines[i] == rest[i - 1]);
            }
        }
        assert forall|i: int| #[trigger] is_first_active_line(lines, i)
        implies first_active(rest) == Some(identity_of(lines[i])) by {
            assert(is_first_active_line(rest, i - 1));
        }
    }
}

/// The position where the line that begins at `start` ends: that of the next
/// line feed, or the end of the text.
fn line_end(chars: &Vec<char>, start: usize) -> (end: usize)
    requires
        start <= chars.len(),
    ensures
        start <= end <= chars.len(),
        end - start == first_break(chars@.skip(start as int)),
{
    let mut end: usize = start;
    while end < chars.len() && chars[end] != '\n'
        invariant
            start <= end <= chars.len(),
            forall|j: int| start <= j < end ==> chars@[j] != '\n',
        decreases chars.len() - end,
    {
        end = end + 1;
    }
    proof {
        lemma_first_break(chars@.skip(start as int), end - start);
    }
    end
}

/// Whether the characters from `start` up to `stop` begin with the marker.
fn begins_with_marker(chars: &Vec<char>, start: usize, stop: usize) -> (found: bool)
    requires
        start <= stop <= chars.len(),
    ensures
        found == is_active_line(chars@.subrange(start as int, stop as int)),
{
    if stop - start < 4 {
        return false;
    }
    let found = chars[start] == 'y' && chars[start + 1] == 'e' && chars[start + 2] == 's'
        && chars[start + 3] == ':';
    proof {
        let head = chars@.subrange(start as int, stop as int).subrange(0, 4);
        assert(found <==> head =~= active_marker());
    }
    found
}

/// Scans the listing line by line and returns the identity of the first
/// line marked active.
#[verifier::loop_isolation(false)]
pub fn active_identity(text: &str) -> (active: Option<String>)
    ensures
        option_view(active) == active_in(text@),
        active is None <==> forall|i: int|
            0 <= i < listing_lines(text@).len() ==> !is_active_line(
                #[trigger] listing_lines(text@)[i],
            ),
        forall|i: int| #[trigger]
            is_first_active_line(listing_lines(text@), i) ==> option_view(active) == Some(
                identity_of(listing_lines(text@)[i]),
            ),
{
    proof {
        lemma_first_active(listing_lines(text@));
        assert(text@.skip(0) =~= text@);
    }
    let chars = characters(text);
    let n: usize = chars.len();
    let mut start: usize = 0;
    while start < n
        invariant
            start <= n,
            active_in(text@) == active_in(text@.skip(start as int)),
        decreases n - start,
    {
        let end: usize = line_end(&chars, start);
        let stop: usize = if end < n && start < end && chars[end - 1] == '\r' {
            end - 1
        } else {
            end
        };
        proof {
            // What is left of the text begins with the line from `start`
            // up to `stop`; the lines after it are those of the text that
            // follows the line feed at `end`.
            let rest = text@.skip(start as int);
            let lines = listing_lines(rest);
            assert(lines[0] =~= text@.subrange(start as int, stop as int));
            if end < n {
                assert(rest.skip(end - start + 1) =~= text@.skip(end + 1));
                assert(lines.drop_first() =~= listing_lines(text@.skip(end + 1)));
            } else {
                assert(lines.drop_first() =~= Seq::<Seq<char>>::empty());
                assert(first_active(lines.drop_first()) is None);
            }
        }
        if begins_with_marker(&chars, start, stop) {
            let identity = text.substring_char(start + 4, stop);
            return Some(identity.to_owned());
        }
        if end == n {
            return None;
        }
        start = end + 1;
    }
    assert(text@.skip(start as int) =~= Seq::<char>::empty());
    None
}

/// Resolves the active network from the report of the listing command.
/// Returns nothing where the command failed or no network is marked active.
/// Output that is well-formed UTF-8 is read as the text it encodes.
pub fn resolve(reply: &GatewayReply) -> (active: Option<String>)
    ensures
        option_view(active) == resolution(reply@),
        reply@.succeeded() && valid_utf8(reply@->stdout) ==> option_view(active) == active_in(
            decode_utf8(reply@->stdout),
        ),
{
    match reply {
        GatewayReply::Exited { success, stdout, .. } => {
            if *success {
                let text = decode_lossy(stdout.as_slice());
                active_identity(text.as_str())
            } else {
                None
            }
        },
        GatewayReply::NotLaunched { .. } => None,
    }
}

} // verus!
