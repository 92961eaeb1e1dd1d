//! The diagnostics sink of one compilation run.
//!
//! The engine reports errors through this type. It accumulates per-file
//! source text for diagnostic context, tracks a monotonic error flag — once
//! set it is never cleared within a run — and buffers human-readable
//! messages for the host log channel. Two sinks produced independently may
//! be merged to combine partial results.

use vstd::prelude::*;

verus! {

use crate::model::{FileId, Level, Location};

/// The mapping an association list of file entries denotes: entries are laid
/// down left to right, so on a repeated identifier the later entry wins.
pub open spec fn map_of(entries: Seq<(u16, Seq<char>)>) -> Map<u16, Seq<char>>
    decreases entries.len(),
{
    if entries.len() == 0 {
        Map::empty()
    } else {
        map_of(entries.drop_last()).insert(entries.last().0, entries.last().1)
    }
}

/// The entries of a file list as plain values.
pub open spec fn entries_view(entries: Seq<(u16, String)>) -> Seq<(u16, Seq<char>)> {
    entries.map_values(|e: (u16, String)| (e.0, e.1@))
}

/// Concatenating two entry lists denotes the union of their mappings, the
/// right list's entries winning on a shared identifier.
pub proof fn lemma_map_of_append(a: Seq<(u16, Seq<char>)>, b: Seq<(u16, Seq<char>)>)
    ensures
        map_of(a + b) == map_of(a).union_prefer_right(map_of(b)),
    decreases b.len(),
{
    if b.len() == 0 {
        assert(a + b =~= a);
        assert(map_of(a).union_prefer_right(map_of(b)) =~= map_of(a));
    } else {
        assert((a + b).drop_last() =~= a + b.drop_last());
        assert((a + b).last() == b.last());
        lemma_map_of_append(a, b.drop_last());
        assert(map_of(a).union_prefer_right(map_of(b.drop_last())).insert(b.last().0, b.last().1)
            =~= map_of(a).union_prefer_right(map_of(b)));
    }
}

/// An entry whose identifier no later entry repeats gives the mapping's
/// value for that identifier.
proof fn lemma_map_of_found(entries: Seq<(u16, Seq<char>)>, i: int, k: u16)
    requires
        0 <= i < entries.len(),
        entries[i].0 == k,
        forall|j: int| i < j < entries.len() ==> entries[j].0 != k,
    ensures
        map_of(entries).contains_key(k),
        map_of(entries)[k] == entries[i].1,
    decreases entries.len(),
{
    if i < entries.len() - 1 {
        lemma_map_of_found(entries.drop_last(), i, k);
    }
}

/// An identifier no entry carries is not in the mapping.
proof fn lemma_map_of_absent(entries: Seq<(u16, Seq<char>)>, k: u16)
    requires
        forall|j: int| 0 <= j < entries.len() ==> entries[j].0 != k,
    ensures
        !map_of(entries).contains_key(k),
    decreases entries.len(),
{
    if entries.len() > 0 {
        lemma_map_of_absent(entries.drop_last(), k);
    }
}

/// The diagnostics sink: the error flag, the registered source texts, and
/// the messages recorded for the host log channel but not yet delivered.
#[derive(Debug)]
pub struct JsHandler {
    /// Whether any error was reported during this run. Monotonic: every
    /// operation of the sink preserves a set flag.
    pub has_error: bool,
    /// The registered source texts, keyed by file identifier. An entry
    /// brought in later — by a merge — wins on a repeated identifier.
    pub files: Vec<(u16, String)>,
    /// Messages recorded for the host log channel, oldest first. The
    /// unverified boundary drains this buffer and forwards each message
    /// exactly once.
    pub pending: Vec<String>,
}

impl JsHandler {
    /// The mapping from file identifier to source text this sink holds.
    pub open spec fn files_view(self) -> Map<u16, Seq<char>> {
        map_of(entries_view(self.files@))
    }

    /// The recorded messages as plain values, oldest first.
    pub open spec fn messages_view(self) -> Seq<Seq<char>> {
        self.pending@.map_values(|m: String| m@)
    }

    /// A fresh sink seeded with one source file and no error.
    pub fn new(code: String, f_id: FileId) -> (r: Self)
        ensures
            !r.has_error,
            r.files_view() == Map::<u16, Seq<char>>::empty().insert(f_id.0, code@),
            r.messages_view() == Seq::<Seq<char>>::empty(),
    {
        let mut files: Vec<(u16, String)> = Vec::new();
        files.push((f_id.0, code));
        proof {
            reveal_with_fuel(map_of, 2);
            assert(entries_view(files@).drop_last() =~= Seq::<(u16, Seq<char>)>::empty());
            assert(entries_view(files@).last() == (f_id.0, code@));
            assert(map_of(entries_view(files@)) =~= Map::<u16, Seq<char>>::empty().insert(
                f_id.0,
                code@,
            ));
        }
        Self { has_error: false, files, pending: Vec::new() }
    }

    /// A fresh sink with no source file and no error, for a run whose files
    /// are discovered progressively.
    pub fn new_no_file() -> (r: Self)
        ensures
            !r.has_error,
            r.files_view() == Map::<u16, Seq<char>>::empty(),
            r.messages_view() == Seq::<Seq<char>>::empty(),
    {
        proof {
            assert(entries_view(Seq::<(u16, String)>::empty()) =~= Seq::<(u16, Seq<char>)>::empty());
        }
        Self { has_error: false, files: Vec::new(), pending: Vec::new() }
    }

    /// The source text registered under an identifier, if any.
    pub fn get_file(&self, f_id: FileId) -> (r: Option<&str>)
        ensures
            r matches Some(s) ==> self.files_view().contains_key(f_id.0) && s@
                == self.files_view()[f_id.0],
            r is None ==> !self.files_view().contains_key(f_id.0),
    {
        let mut i: usize = self.files.len();
        while i > 0
            invariant
                i <= self.files.len(),
                forall|j: int|
                    i <= j < self.files@.len() ==> entries_view(self.files@)[j].0 != f_id.0,
            decreases i,
        {
            i = i - 1;
            if self.files[i].0 == f_id.0 {
                proof {
                    lemma_map_of_found(entries_view(self.files@), i as int, f_id.0);
                }
                return Some(self.files[i].1.as_str());
            }
        }
        proof {
            lemma_map_of_absent(entries_view(self.files@), f_id.0);
        }
        None
    }

    /// Whether any error was reported so far in this run.
    pub fn has_error(&self) -> (r: bool)
        ensures
            r == self.has_error,
    {
        self.has_error
    }

    /// Marks the run as failed without recording a message, for failures
    /// already reported elsewhere.
    pub fn silent_report(&mut self)
        ensures
            final(self).has_error,
            final(self).files@ == old(self).files@,
            final(self).pending@ == old(self).pending@,
    {
        self.has_error = true;
    }

    /// Combines a sink produced independently into this one: the error flags
    /// are or-ed, the source maps are united with the other sink's entries
    /// winning on a shared identifier, and the other sink's recorded
    /// messages follow this sink's.
    pub fn merge(&mut self, other: JsHandler)
        ensures
            final(self).has_error == (old(self).has_error || other.has_error),
            final(self).files_view() == old(self).files_view().union_prefer_right(
                other.files_view(),
            ),
            final(self).messages_view() == old(self).messages_view() + other.messages_view(),
    {
        let mut other = other;
        let ghost other0 = other;
        self.has_error = self.has_error || other.has_error;
        self.files.append(&mut other.files);
        self.pending.append(&mut other.pending);
        proof {
            assert(entries_view(old(self).files@ + other0.files@) =~= entries_view(
                old(self).files@,
            ) + entries_view(other0.files@));
            lemma_map_of_append(entries_view(old(self).files@), entries_view(other0.files@));
            assert(final(self).messages_view() =~= old(self).messages_view()
                + other0.messages_view());
        }
    }

    /// The lifecycle hook for batched log delivery; delivery itself is the
    /// unverified boundary's task, so nothing is done here.
    pub fn flush(&mut self)
        ensures
            *final(self) == *old(self),
    {
    }

    /// Records an error: sets the flag and appends the message, exactly
    /// once, to the buffer bound for the host log channel. Severity and
    /// location are accepted but do not alter what is recorded.
    pub fn log(&mut self, message: String, _level: Level, _loc: Option<Location>)
        ensures
            final(self).has_error,
            final(self).files@ == old(self).files@,
            final(self).pending@ == old(self).pending@.push(message),
    {
        self.has_error = true;
        self.pending.push(message);
    }

    /// Hands the recorded messages over for delivery, oldest first, and
    /// empties the buffer. The unverified boundary forwards each returned
    /// message to the host log channel exactly once.
    pub fn take_pending(&mut self) -> (r: Vec<String>)
        ensures
            r@ == old(self).pending@,
            final(self).pending@ == Seq::<String>::empty(),
            final(self).has_error == old(self).has_error,
            final(self).files@ == old(self).files@,
    {
        self.pending.split_off(0)
    }
}

} // verus!
