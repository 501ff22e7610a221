use vstd::prelude::*;
use crate::notify::{summary_lines, lines_of, view_lines, Notification};
use crate::text::{chars_of, decimal, decimal_chars, push_all, string_from_chars};

verus! {

/// Milliseconds between two polls of the feed by the relay.
pub const RELAY_INTERVAL_MS: u64 = 60000;

/// Whether the relay polls the feed again at `now_ms`, having last polled at `last_ms`.
pub fn relay_due(last_ms: u64, now_ms: u64) -> (r: bool)
    ensures
        r == (now_ms >= last_ms && now_ms - last_ms >= RELAY_INTERVAL_MS),
{
    now_ms >= last_ms && now_ms - last_ms >= RELAY_INTERVAL_MS
}

/// The lines of `lines`, each ended by a newline.
pub open spec fn joined(lines: Seq<Seq<char>>) -> Seq<char>
    decreases lines.len(),
{
    if lines.len() == 0 {
        Seq::empty()
    } else {
        joined(lines.drop_last()) + lines.last() + seq!['\n']
    }
}

/// The relay's message for some lines: a header "GITHUB <count>" and the lines.
pub open spec fn message_of(lines: Seq<Seq<char>>) -> Seq<char> {
    seq!['G', 'I', 'T', 'H', 'U', 'B', ' '] + decimal(lines.len()) + seq!['\n'] + joined(lines)
}

/// What the relay sends for a batch of notifications: the summary of the unread ones, or
/// nothing when none is unread.
pub fn relay_message(ns: &Vec<Notification>) -> (r: Option<String>)
    ensures
        match lines_of(ns@, false) {
            None => r is None,
            Some(ls) => r is Some && r->0@ == message_of(ls),
        },
{
    let lines = match summary_lines(ns, false) {
        None => {
            return None;
        },
        Some(l) => l,
    };
    let mut v: Vec<char> = vec!['G', 'I', 'T', 'H', 'U', 'B', ' '];
    push_all(&mut v, &decimal_chars(lines.len() as u64));
    v.push('\n');
    let ghost head = v@;
    let mut i: usize = 0;
    while i < lines.len()
        invariant
            i <= lines@.len(),
            v@ == head + joined(view_lines(lines@).take(i as int)),
        decreases lines@.len() - i,
    {
        let ghost before = v@;
        push_all(&mut v, &chars_of(lines[i].as_str()));
        v.push('\n');
        proof {
            let ls = view_lines(lines@);
            assert(ls.take(i + 1).drop_last() =~= ls.take(i as int));
            assert(ls.take(i + 1).last() == lines@[i as int]@);
            assert(v@ =~= head + joined(ls.take(i + 1)));
        }
        i += 1;
    }
    proof {
        let ls = view_lines(lines@);
        assert(ls.take(lines@.len() as int) =~= ls);
        assert(ls.len() == lines@.len());
        assert(v@ =~= message_of(ls));
    }
    Some(string_from_chars(&v))
}

} // verus!
