//! Paths given on the command line.

use crate::text;
use vstd::prelude::*;

verus! {

/// Where a path given on the command line leads.
#[derive(Debug)]
pub enum ExpandedPath {
    /// To `rest`, seen from the home directory `home`.
    UnderHome { home: String, rest: String },
    /// Where it says.
    AsGiven { path: String },
}

/// The contents of an `ExpandedPath`.
#[verifier::ext_equal]
pub enum ExpandedPathView {
    UnderHome { home: Seq<char>, rest: Seq<char> },
    AsGiven { path: Seq<char> },
}

impl View for ExpandedPath {
    type V = ExpandedPathView;

    open spec fn view(&self) -> ExpandedPathView {
        match self {
            ExpandedPath::UnderHome { home, rest } => ExpandedPathView::UnderHome {
                home: home@,
                rest: rest@,
            },
            ExpandedPath::AsGiven { path } => ExpandedPathView::AsGiven { path: path@ },
        }
    }
}

/// Where the path `p` leads: a leading `~/` stands for the home directory,
/// where that is known.
pub open spec fn expanded(p: Seq<char>, home: Option<Seq<char>>) -> ExpandedPathView {
    match home {
        Some(home) if "~/"@.is_prefix_of(p) => ExpandedPathView::UnderHome {
            home,
            rest: p.skip(2),
        },
        _ => ExpandedPathView::AsGiven { path: p },
    }
}

/// The view of a home directory.
pub open spec fn home_view(home: Option<&str>) -> Option<Seq<char>> {
    match home {
        Some(h) => Some(h@),
        None => None,
    }
}

/// Where the path `p` leads: a leading `~/` stands for the home directory,
/// where that is known.
pub fn expand_tilde(p: &str, home: Option<&str>) -> (r: ExpandedPath)
    ensures
        r@ == expanded(p@, home_view(home)),
{
    proof {
        reveal_strlit("~/");
    }
    if let Some(rest) = text::strip_prefix(p, "~/") {
        if let Some(home) = home {
            assert(rest@ =~= p@.skip(2));
            return ExpandedPath::UnderHome { home: home.to_owned(), rest };
        }
    }
    ExpandedPath::AsGiven { path: p.to_owned() }
}

/// What follows a leading `~/` is looked for under the home directory, where
/// that is known; every other path leads where it says.
pub proof fn law_tilde_stands_for_home(p: Seq<char>, rest: Seq<char>, home: Seq<char>, h: &str)
    ensures
        home_view(Some(h)) == Some(h@),
        home_view(None) is None,
        expanded("~/"@ + rest, Some(home)) == (ExpandedPathView::UnderHome { home, rest }),
        expanded(p, None) == (ExpandedPathView::AsGiven { path: p }),
        !(p.len() >= 2 && p[0] == '~' && p[1] == '/') ==> expanded(p, Some(home)) == (
        ExpandedPathView::AsGiven { path: p }),
{
    reveal_strlit("~/");
    let q = "~/"@ + rest;
    assert("~/"@ =~= q.subrange(0, 2));
    assert(q.skip(2) =~= rest);
    if "~/"@.is_prefix_of(p) {
        assert(p.subrange(0, 2)[0] == p[0] && p.subrange(0, 2)[1] == p[1]);
    }
}

/// A path is seen as it stands.
pub proof fn law_path_is_seen_as_it_stands(path: ExpandedPath)
    ensures
        match path {
            ExpandedPath::UnderHome { home, rest } => path@ == (ExpandedPathView::UnderHome {
                home: home@,
                rest: rest@,
            }),
            ExpandedPath::AsGiven { path: given } => path@ == (ExpandedPathView::AsGiven {
                path: given@,
            }),
        },
{
}

} // verus!
