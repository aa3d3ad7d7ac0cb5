//! This module lists the local projects and the user's GitHub repositories

use crate::repo::{names_of, views, Repo, RepoView};
use crate::text::{
    free_of, index_of, lemma_index_absent, lemma_index_found, lemma_lines_cons, lemma_lines_one,
    lines, single_line,
};
use vstd::prelude::*;

verus! {

/// The projects made of the directory entries `(name, is_dir)`, in order:
/// one local project for each directory, nothing for other entries
pub open spec fn local_views(entries: Seq<(String, bool)>) -> Seq<RepoView>
    decreases entries.len(),
{
    if entries.len() == 0 {
        Seq::empty()
    } else {
        let rest = local_views(entries.drop_last());
        if entries.last().1 {
            rest.push(RepoView { name: entries.last().0@, local: true, url: None })
        } else {
            rest
        }
    }
}

/// The projects made of the repositories `(name, url)` whose name is not
/// among `local`, in order, each known only remotely
pub open spec fn remote_views(local: Seq<Seq<char>>, listing: Seq<(String, String)>) -> Seq<RepoView>
    decreases listing.len(),
{
    if listing.len() == 0 {
        Seq::empty()
    } else {
        let rest = remote_views(local, listing.drop_last());
        let last = listing.last();
        if local.contains(last.0@) {
            rest
        } else {
            rest.push(RepoView { name: last.0@, local: false, url: Some(last.1@) })
        }
    }
}

/// Every project of `s` meets its invariant
pub open spec fn all_wf(s: Seq<Repo>) -> bool {
    forall|i: int| 0 <= i < s.len() ==> #[trigger] s[i].wf()
}

proof fn lemma_local_views_all_local(entries: Seq<(String, bool)>)
    ensures
        forall|i: int| 0 <= i < local_views(entries).len() ==> #[trigger] local_views(entries)[i].local,
    decreases entries.len(),
{
    if entries.len() > 0 {
        lemma_local_views_all_local(entries.drop_last());
    }
}

proof fn lemma_remote_views_not_local(local: Seq<Seq<char>>, listing: Seq<(String, String)>)
    ensures
        forall|i: int|
            0 <= i < remote_views(local, listing).len() ==> {
                &&& !local.contains(#[trigger] remote_views(local, listing)[i].name)
                &&& !remote_views(local, listing)[i].local
            },
    decreases listing.len(),
{
    if listing.len() > 0 {
        lemma_remote_views_not_local(local, listing.drop_last());
        let rest = remote_views(local, listing.drop_last());
        let all = remote_views(local, listing);
        assert forall|i: int| 0 <= i < all.len() implies !local.contains(#[trigger] all[i].name)
            && !all[i].local by {
            if i < rest.len() {
                assert(all[i] == rest[i]);
            }
        }
    }
}

/// Whether one of `repos` has the name `name`
pub fn contains_name(repos: &Vec<Repo>, name: &String) -> (r: bool)
    ensures
        r == names_of(repos@).contains(name@),
{
    let mut i: usize = 0;
    while i < repos.len()
        invariant
            i <= repos.len(),
            forall|j: int| 0 <= j < i ==> repos@[j]@.name != name@,
        decreases repos.len() - i,
    {
        let n = repos[i].name();
        if n.eq(name) {
            assert(names_of(repos@)[i as int] == name@);
            return true;
        }
        i += 1;
    }
    proof {
        if names_of(repos@).contains(name@) {
            let k = choose|k: int| 0 <= k < names_of(repos@).len() && names_of(repos@)[k] == name@;
            assert(repos@[k]@.name == name@);
        }
    }
    false
}

/// Lists the projects under the projects directory, given its entries as
/// `(name, is_dir)`: each directory becomes a local project
pub fn get_local_projects(entries: &Vec<(String, bool)>) -> (r: Vec<Repo>)
    ensures
        views(r@) == local_views(entries@),
        all_wf(r@),
        forall|i: int| 0 <= i < r@.len() ==> #[trigger] r@[i]@.local,
{
    let mut r: Vec<Repo> = Vec::new();
    let mut i: usize = 0;
    while i < entries.len()
        invariant
            i <= entries.len(),
            views(r@) == local_views(entries@.subrange(0, i as int)),
            all_wf(r@),
        decreases entries.len() - i,
    {
        let entry = &entries[i];
        if entry.1 {
            r.push(Repo::local(entry.0.clone()));
        }
        proof {
            assert(entries@.subrange(0, i + 1).drop_last() =~= entries@.subrange(0, i as int));
            assert(views(r@) =~= local_views(entries@.subrange(0, i + 1)));
        }
        i += 1;
    }
    proof {
        assert(entries@.subrange(0, entries@.len() as int) =~= entries@);
        lemma_local_views_all_local(entries@);
        assert forall|i: int| 0 <= i < r@.len() implies #[trigger] r@[i]@.local by {
            assert(views(r@)[i] == r@[i]@);
        }
    }
    r
}

/// The user's repositories, given as `(name, url)`, that are not among the
/// local projects, each as a remote project
pub fn get_users_repos(local_projects: &Vec<Repo>, listing: &Vec<(String, String)>) -> (r: Vec<Repo>)
    ensures
        views(r@) == remote_views(names_of(local_projects@), listing@),
        all_wf(r@),
        forall|i: int|
            0 <= i < r@.len() ==> !names_of(local_projects@).contains(#[trigger] r@[i]@.name),
        forall|i: int| 0 <= i < r@.len() ==> !(#[trigger] r@[i]@.local),
{
    let ghost local = names_of(local_projects@);
    let mut r: Vec<Repo> = Vec::new();
    let mut i: usize = 0;
    while i < listing.len()
        invariant
            i <= listing.len(),
            local == names_of(local_projects@),
            views(r@) == remote_views(local, listing@.subrange(0, i as int)),
            all_wf(r@),
        decreases listing.len() - i,
    {
        let item = &listing[i];
        if !contains_name(local_projects, &item.0) {
            r.push(Repo::remote(item.0.clone(), item.1.clone()));
        }
        proof {
            assert(listing@.subrange(0, i + 1).drop_last() =~= listing@.subrange(0, i as int));
            assert(views(r@) =~= remote_views(local, listing@.subrange(0, i + 1)));
        }
        i += 1;
    }
    proof {
        assert(listing@.subrange(0, listing@.len() as int) =~= listing@);
        lemma_remote_views_not_local(local, listing@);
        assert forall|i: int| 0 <= i < r@.len() implies !local.contains(#[trigger] r@[i]@.name) by {
            assert(views(r@)[i] == r@[i]@);
        }
        assert forall|i: int| 0 <= i < r@.len() implies !(#[trigger] r@[i]@.local) by {
            assert(views(r@)[i] == r@[i]@);
            assert(!local.contains(views(r@)[i].name));
        }
    }
    r
}


/// What one line of a listing gives: the repository `(name, url)` parted at
/// the line's first tab, or nothing for a line without a tab
pub open spec fn listing_entry(line: Seq<char>) -> Seq<(Seq<char>, Seq<char>)> {
    let t = index_of(line, '\t');
    if t < line.len() {
        seq![(line.take(t as int), line.skip(t as int + 1))]
    } else {
        Seq::empty()
    }
}

/// What the lines of a listing give, in order
pub open spec fn listing_of_lines(ls: Seq<Seq<char>>) -> Seq<(Seq<char>, Seq<char>)>
    decreases ls.len(),
{
    if ls.len() == 0 {
        Seq::empty()
    } else {
        listing_entry(ls[0]) + listing_of_lines(ls.drop_first())
    }
}

/// The repositories of a listing with one repository per line, its name and
/// URL parted by the first tab (the URL runs to the end of the line); a line
/// without a tab lists nothing
pub open spec fn listing_of(text: Seq<char>) -> Seq<(Seq<char>, Seq<char>)> {
    listing_of_lines(lines(text))
}

/// The entry of the line `text[start..end]`, given where its first tab is
proof fn lemma_line_entry(text: Seq<char>, start: int, end: int, tab: Option<int>)
    requires
        0 <= start <= end <= text.len(),
        tab is None ==> forall|k: int| start <= k < end ==> text[k] != '\t',
        tab matches Some(t) ==> {
            &&& start <= t < end
            &&& text[t] == '\t'
            &&& forall|k: int| start <= k < t ==> text[k] != '\t'
        },
    ensures
        listing_entry(text.subrange(start, end)) == (match tab {
            Some(t) => seq![(text.subrange(start, t), text.subrange(t + 1, end))],
            None => Seq::empty(),
        }),
{
    let line = text.subrange(start, end);
    match tab {
        Some(t) => {
            let head = line.take(t - start);
            assert(free_of(head, '\t')) by {
                assert forall|k: int| 0 <= k < head.len() implies #[trigger] head[k] != '\t' by {
                    assert(head[k] == text[start + k]);
                }
            }
            lemma_index_found(line, t - start, '\t');
            assert(line.take(t - start) =~= text.subrange(start, t));
            assert(line.skip(t - start + 1) =~= text.subrange(t + 1, end));
        },
        None => {
            assert(free_of(line, '\t')) by {
                assert forall|k: int| 0 <= k < line.len() implies line[k] != '\t' by {
                    assert(line[k] == text[start + k]);
                }
            }
            lemma_index_absent(line, '\t');
        },
    }
}

/// The rest of a listing from `start`, where the line runs to `end` and a
/// line break follows it, gives that line's entry and then the rest after it
proof fn lemma_listing_next_line(text: Seq<char>, start: int, end: int)
    requires
        0 <= start <= end < text.len(),
        text[end] == '\n',
        forall|k: int| start <= k < end ==> text[k] != '\n',
    ensures
        listing_of(text.skip(start)) == listing_entry(text.subrange(start, end)) + listing_of(
            text.skip(end + 1),
        ),
{
    reveal_strlit("\n");
    let line = text.subrange(start, end);
    assert(single_line(line)) by {
        assert forall|k: int| 0 <= k < line.len() implies line[k] != '\n' by {
            assert(line[k] == text[start + k]);
        }
    }
    assert(text.skip(start) =~= line + "\n"@ + text.skip(end + 1));
    lemma_lines_cons(line, text.skip(end + 1));
    let ls = seq![line] + lines(text.skip(end + 1));
    assert(ls.drop_first() =~= lines(text.skip(end + 1)));
}

/// The rest of a listing from `start`, holding no line break, is one line
proof fn lemma_listing_last_line(text: Seq<char>, start: int)
    requires
        0 <= start <= text.len(),
        forall|k: int| start <= k < text.len() ==> text[k] != '\n',
    ensures
        listing_of(text.skip(start)) == listing_entry(text.subrange(start, text.len() as int)),
{
    let line = text.skip(start);
    assert(line =~= text.subrange(start, text.len() as int));
    assert(single_line(line)) by {
        assert forall|k: int| 0 <= k < line.len() implies line[k] != '\n' by {
            assert(line[k] == text[start + k]);
        }
    }
    lemma_lines_one(line);
    let ls = seq![line];
    assert(ls.drop_first() =~= Seq::<Seq<char>>::empty());
    assert(listing_of_lines(ls.drop_first()) =~= Seq::<(Seq<char>, Seq<char>)>::empty());
    assert(listing_of_lines(ls) == listing_entry(line) + listing_of_lines(ls.drop_first()));
    assert(listing_entry(line) + Seq::<(Seq<char>, Seq<char>)>::empty() =~= listing_entry(line));
}

/// The views of pairs of strings
pub open spec fn pair_views(v: Seq<(String, String)>) -> Seq<(Seq<char>, Seq<char>)> {
    v.map_values(|p: (String, String)| (p.0@, p.1@))
}

fn push_pair(r: &mut Vec<(String, String)>, text: &str, start: usize, tab: usize, end: usize)
    requires
        start <= tab < end <= text@.len(),
    ensures
        pair_views(final(r)@) == pair_views(old(r)@).push(
            (text@.subrange(start as int, tab as int), text@.subrange(tab + 1, end as int)),
        ),
{
    let name = String::from_str(text.substring_char(start, tab));
    let url = String::from_str(text.substring_char(tab + 1, end));
    let ghost before = r@;
    r.push((name, url));
    proof {
        assert(pair_views(r@) =~= pair_views(before).push((name@, url@)));
    }
}

/// Reads the user's repositories from the hosting service's listing: one
/// repository per line, `<name>\t<url>`
pub fn parse_repo_listing(text: &str) -> (r: Vec<(String, String)>)
    ensures
        pair_views(r@) == listing_of(text@),
{
    let mut r: Vec<(String, String)> = Vec::new();
    let mut start: usize = 0;
    let mut tab: Option<usize> = None;
    let mut i: usize = 0;
    let n = text.unicode_len();
    proof {
        broadcast use vstd::string::axiom_spec_iter;
        assert(text@.skip(0) =~= text@);
        assert(pair_views(r@) + listing_of(text@.skip(0)) =~= listing_of(text@));
    }
    for c in it: text.chars()
        invariant
            n == text@.len(),
            it.seq() == text@,
            i == it.index(),
            i <= n,
            start <= i,
            pair_views(r@) + listing_of(text@.skip(start as int)) == listing_of(text@),
            forall|k: int| start <= k < i ==> text@[k] != '\n',
            tab is None ==> forall|k: int| start <= k < i ==> text@[k] != '\t',
            tab matches Some(t) ==> {
                &&& start <= t < i
                &&& text@[t as int] == '\t'
                &&& forall|k: int| start <= k < t ==> text@[k] != '\t'
            },
    {
        if c == '\n' {
            proof {
                lemma_listing_next_line(text@, start as int, i as int);
                lemma_line_entry(
                    text@,
                    start as int,
                    i as int,
                    match tab {
                        Some(t) => Some(t as int),
                        None => None,
                    },
                );
            }
            let ghost before = r@;
            if let Some(t) = tab {
                push_pair(&mut r, text, start, t, i);
            }
            proof {
                assert(pair_views(r@) + listing_of(text@.skip(i + 1)) =~= listing_of(text@));
            }
            start = i + 1;
            tab = None;
        } else if c == '\t' && tab.is_none() {
            tab = Some(i);
        }
        i += 1;
    }
    proof {
        lemma_listing_last_line(text@, start as int);
        lemma_line_entry(
            text@,
            start as int,
            n as int,
            match tab {
                Some(t) => Some(t as int),
                None => None,
            },
        );
    }
    if let Some(t) = tab {
        push_pair(&mut r, text, start, t, n);
    }
    proof {
        assert(pair_views(r@) =~= listing_of(text@));
    }
    r
}

} // verus!
