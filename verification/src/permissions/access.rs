//! How a path is opened, and the token for a path that passed a check.

use vstd::prelude::*;

verus! {

/// How a file handle is opened.
#[derive(Debug, Clone, Copy, PartialEq, Eq, Structural)]
pub enum OpenAccessKind {
    Read,
    ReadNoFollow,
    Write,
    WriteNoFollow,
    ReadWrite,
    ReadWriteNoFollow,
}

impl OpenAccessKind {
    /// Whether opening in this way reads the file.
    pub open spec fn reads(&self) -> bool {
        !(*self is Write || *self is WriteNoFollow)
    }

    /// Whether opening in this way writes the file.
    pub open spec fn writes(&self) -> bool {
        !(*self is Read || *self is ReadNoFollow)
    }

    /// Whether opening in this way leaves a link at the end of the path
    /// unfollowed.
    pub open spec fn stops_at_links(&self) -> bool {
        *self is ReadNoFollow || *self is WriteNoFollow || *self is ReadWriteNoFollow
    }

    /// Whether opening in this way reads the file.
    #[verifier::when_used_as_spec(reads)]
    pub fn is_read(&self) -> (reads: bool)
        ensures
            reads == self.reads(),
    {
        match self {
            OpenAccessKind::Write | OpenAccessKind::WriteNoFollow => false,
            _ => true,
        }
    }

    /// Whether opening in this way writes the file.
    #[verifier::when_used_as_spec(writes)]
    pub fn is_write(&self) -> (writes: bool)
        ensures
            writes == self.writes(),
    {
        match self {
            OpenAccessKind::Read | OpenAccessKind::ReadNoFollow => false,
            _ => true,
        }
    }

    /// Whether opening in this way leaves a link at the end of the path
    /// unfollowed.
    #[verifier::when_used_as_spec(stops_at_links)]
    pub fn is_no_follow(&self) -> (stops: bool)
        ensures
            stops == self.stops_at_links(),
    {
        match self {
            OpenAccessKind::ReadNoFollow
            | OpenAccessKind::WriteNoFollow
            | OpenAccessKind::ReadWriteNoFollow => true,
            _ => false,
        }
    }

    /// The way of opening for a subsystem that asks with separate flags.
    /// It is `None` where neither reading nor writing is asked for.
    pub fn from_flags(read: bool, write: bool, no_follow: bool) -> (kind: Option<Self>)
        ensures
            kind is Some <==> read || write,
            kind matches Some(k) ==> k.reads() == read && k.writes() == write
                && k.stops_at_links() == no_follow,
    {
        if read && write {
            if no_follow {
                Some(OpenAccessKind::ReadWriteNoFollow)
            } else {
                Some(OpenAccessKind::ReadWrite)
            }
        } else if read {
            if no_follow {
                Some(OpenAccessKind::ReadNoFollow)
            } else {
                Some(OpenAccessKind::Read)
            }
        } else if write {
            if no_follow {
                Some(OpenAccessKind::WriteNoFollow)
            } else {
                Some(OpenAccessKind::Write)
            }
        } else {
            None
        }
    }
}

/// Every way of opening reads or writes, and its three flags say all
/// there is to it: two ways with the same flags are the same way.
pub proof fn lemma_flags_tell_ways_apart(one: OpenAccessKind, other: OpenAccessKind)
    ensures
        one.reads() || one.writes(),
        one.reads() == other.reads() && one.writes() == other.writes() && one.stops_at_links()
            == other.stops_at_links() ==> one == other,
{
}

/// A path that a permission check has let through: the text of the path,
/// or `None` for a path that has no text.
#[derive(Debug, Clone, Copy, PartialEq, Eq)]
pub struct CheckedPath<'a> {
    path: Option<&'a str>,
}

/// The text of an optional string.
pub open spec fn opt_text(s: Option<&str>) -> Option<Seq<char>> {
    match s {
        Some(s) => Some(s@),
        None => None,
    }
}

impl<'a> View for CheckedPath<'a> {
    type V = Option<Seq<char>>;

    closed spec fn view(&self) -> Option<Seq<char>> {
        opt_text(self.path)
    }
}

impl<'a> CheckedPath<'a> {
    /// Marks `path` as checked without checking anything. It is for the
    /// backends of the capability interface, which decide themselves.
    pub fn unchecked(path: Option<&'a str>) -> (checked: Self)
        ensures
            checked@ == opt_text(path),
    {
        CheckedPath { path }
    }

    /// The text of the path that was let through.
    pub fn text(&self) -> (path: Option<&'a str>)
        ensures
            opt_text(path) == self@,
    {
        self.path
    }
}

} // verus!
