use vstd::prelude::*;
use vstd::string::*;
use vstd::multiset::Multiset;
use crate::error::FileError;

verus! {

/// One entry of a directory as the caller read it.
#[derive(Clone, Debug)]
pub struct DirEntryInfo {
    /// The entry's base name, or `None` when it is not valid Unicode.
    pub name: Option<String>,
    /// Whether the entry is a directory.
    pub is_dir: bool,
}

/// What listing a directory gave.
#[derive(Clone, Debug)]
pub enum DirListing {
    /// The directory does not exist.
    Missing,
    /// The directory exists but could not be opened for listing.
    Unreadable(String),
    /// The directory's entries, each read or failed, in the order they came.
    Entries(Vec<Result<DirEntryInfo, String>>),
}

/// Lexicographic order on texts, character by character.
pub open spec fn lex_le(a: Seq<char>, b: Seq<char>) -> bool
    decreases a.len(),
{
    if a.len() == 0 {
        true
    } else if b.len() == 0 {
        false
    } else if a[0] != b[0] {
        (a[0] as u32) < (b[0] as u32)
    } else {
        lex_le(a.drop_first(), b.drop_first())
    }
}

pub open spec fn is_sorted(s: Seq<Seq<char>>) -> bool {
    forall|i: int, j: int| 0 <= i < j < s.len() ==> lex_le(#[trigger] s[i], #[trigger] s[j])
}

pub open spec fn views(v: Seq<String>) -> Seq<Seq<char>> {
    v.map_values(|s: String| s@)
}

/// A file name whose extension is exactly `json`: it ends in `.json` and
/// has something before that dot.
pub open spec fn is_json_name(s: Seq<char>) -> bool {
    s.len() > 5 && s.subrange(s.len() - 5, s.len() as int) == ".json"@
}

/// Whether an entry is listed: a file, not a directory, with a JSON name.
pub open spec fn is_listed(e: Result<DirEntryInfo, String>) -> bool {
    e is Ok && !e->Ok_0.is_dir && e->Ok_0.name is Some && is_json_name(e->Ok_0.name->Some_0@)
}

/// The names of the listed entries, in the order they came.
pub open spec fn json_names(es: Seq<Result<DirEntryInfo, String>>) -> Seq<Seq<char>>
    decreases es.len(),
{
    if es.len() == 0 {
        Seq::empty()
    } else {
        let rest = json_names(es.drop_last());
        if is_listed(es.last()) {
            rest.push(es.last()->Ok_0.name->Some_0@)
        } else {
            rest
        }
    }
}

pub proof fn lemma_lex_total(a: Seq<char>, b: Seq<char>)
    ensures
        lex_le(a, b) || lex_le(b, a),
    decreases a.len(),
{
    if a.len() > 0 && b.len() > 0 {
        if a[0] == b[0] {
            lemma_lex_total(a.drop_first(), b.drop_first());
        } else {
            vstd::utf8::char_u32_cast(a[0], a[0] as u32);
            vstd::utf8::char_u32_cast(b[0], b[0] as u32);
        }
    }
}

pub proof fn lemma_lex_trans(a: Seq<char>, b: Seq<char>, c: Seq<char>)
    requires
        lex_le(a, b),
        lex_le(b, c),
    ensures
        lex_le(a, c),
    decreases a.len(),
{
    if a.len() > 0 && b.len() > 0 && c.len() > 0 && a[0] == b[0] && b[0] == c[0] {
        lemma_lex_trans(a.drop_first(), b.drop_first(), c.drop_first());
    }
}

/// Compares two names in the order the listing is sorted by.
pub fn name_le(a: &str, b: &str) -> (r: bool)
    ensures
        r == lex_le(a@, b@),
{
    let na = a.unicode_len();
    let nb = b.unicode_len();
    let mut i: usize = 0;
    proof {
        assert(a@.subrange(0, na as int) =~= a@);
        assert(b@.subrange(0, nb as int) =~= b@);
    }
    while i < na && i < nb
        invariant
            i <= na,
            i <= nb,
            na == a@.len(),
            nb == b@.len(),
            lex_le(a@, b@) == lex_le(a@.subrange(i as int, na as int), b@.subrange(i as int, nb as int)),
        decreases na - i,
    {
        let ca = a.get_char(i);
        let cb = b.get_char(i);
        if ca != cb {
            return (ca as u32) < (cb as u32);
        }
        proof {
            assert(a@.subrange(i as int, na as int).drop_first() =~= a@.subrange(i + 1, na as int));
            assert(b@.subrange(i as int, nb as int).drop_first() =~= b@.subrange(i + 1, nb as int));
        }
        i = i + 1;
    }
    proof {
        assert(i == na ==> a@.subrange(i as int, na as int).len() == 0);
    }
    i == na
}

/// Whether a file name has the extension `json`, matched case-sensitively.
pub fn is_json_file_name(name: &str) -> (r: bool)
    ensures
        r == is_json_name(name@),
{
    let n = name.unicode_len();
    if n <= 5 {
        return false;
    }
    let r = name.get_char(n - 5) == '.' && name.get_char(n - 4) == 'j' && name.get_char(n - 3) == 's'
        && name.get_char(n - 2) == 'o' && name.get_char(n - 1) == 'n';
    proof {
        reveal_strlit(".json");
        let tail = name@.subrange(n - 5, n as int);
        assert(tail[0] == name@[n - 5] && tail[1] == name@[n - 4] && tail[2] == name@[n - 3]);
        assert(tail[3] == name@[n - 2] && tail[4] == name@[n - 1]);
        if r {
            assert(tail =~= ".json"@);
        } else if tail == ".json"@ {
            assert(".json"@[0] == '.' && ".json"@[4] == 'n');
        }
    }
    r
}

proof fn lemma_insert_views(v: Seq<String>, p: int, x: String)
    requires
        0 <= p <= v.len(),
    ensures
        views(v.insert(p, x)) == views(v).insert(p, x@),
        views(v.insert(p, x)).to_multiset() == views(v).to_multiset().insert(x@),
{
    let w = views(v).insert(p, x@);
    assert(views(v.insert(p, x)) =~= w);
    assert(w.remove(p) =~= views(v));
    w.to_multiset_ensures();
    assert(w.contains(x@)) by {
        assert(w[p] == x@);
    }
}

/// Whether `x` is the name of a listed entry.
pub open spec fn names_listed_entry(es: Seq<Result<DirEntryInfo, String>>, x: Seq<char>) -> bool {
    exists|k: int| 0 <= k < es.len() && is_listed(#[trigger] es[k]) && es[k]->Ok_0.name->Some_0@ == x
}

/// No two entries carry the same name, as in a real directory.
pub open spec fn distinct_names(es: Seq<Result<DirEntryInfo, String>>) -> bool {
    forall|a: int, b: int|
        0 <= a < b < es.len() && (#[trigger] es[a]) is Ok && (#[trigger] es[b]) is Ok
            && es[a]->Ok_0.name is Some && es[b]->Ok_0.name is Some
            ==> es[a]->Ok_0.name->Some_0@ != es[b]->Ok_0.name->Some_0@
}

proof fn lemma_json_names_from_entries(es: Seq<Result<DirEntryInfo, String>>, x: Seq<char>)
    requires
        json_names(es).contains(x),
    ensures
        names_listed_entry(es, x),
    decreases es.len(),
{
    let init = es.drop_last();
    let last = es.len() - 1;
    if is_listed(es.last()) && es.last()->Ok_0.name->Some_0@ == x {
        assert(is_listed(es[last]));
    } else {
        let rest = json_names(init);
        if is_listed(es.last()) {
            let j = choose|j: int| 0 <= j < json_names(es).len() && json_names(es)[j] == x;
            assert(j < rest.len());
            assert(rest[j] == x);
        }
        assert(rest.contains(x));
        lemma_json_names_from_entries(init, x);
        let k = choose|k: int| 0 <= k < init.len() && is_listed(#[trigger] init[k]) && init[k]->Ok_0.name->Some_0@ == x;
        assert(es[k] == init[k]);
    }
}

proof fn lemma_json_names_once(es: Seq<Result<DirEntryInfo, String>>, x: Seq<char>)
    requires
        distinct_names(es),
    ensures
        json_names(es).to_multiset().count(x) <= 1,
    decreases es.len(),
{
    if es.len() == 0 {
        json_names(es).to_multiset_ensures();
    } else {
        let init = es.drop_last();
        let rest = json_names(init);
        let last = es.len() - 1;
        assert(distinct_names(init)) by {
            assert forall|a: int, b: int|
                0 <= a < b < init.len() && (#[trigger] init[a]) is Ok && (#[trigger] init[b]) is Ok
                    && init[a]->Ok_0.name is Some && init[b]->Ok_0.name is Some
                    implies init[a]->Ok_0.name->Some_0@ != init[b]->Ok_0.name->Some_0@ by {
                assert(init[a] == es[a] && init[b] == es[b]);
            }
        }
        lemma_json_names_once(init, x);
        rest.to_multiset_ensures();
        if is_listed(es.last()) {
            let y = es.last()->Ok_0.name->Some_0@;
            assert(json_names(es) == rest.push(y));
            assert(rest.push(y).to_multiset() =~= rest.to_multiset().insert(y));
            if y == x {
                if rest.contains(x) {
                    lemma_json_names_from_entries(init, x);
                    let k = choose|k: int|
                        0 <= k < init.len() && is_listed(#[trigger] init[k]) && init[k]->Ok_0.name->Some_0@ == x;
                    assert(es[k] == init[k]);
                    assert(es.last() == es[last]);
                    assert(es[k] is Ok && es[last] is Ok);
                    assert(false);
                }
                assert(rest.to_multiset().count(x) == 0);
            }
        } else {
            assert(json_names(es) == rest);
        }
    }
}

/// What the listing's result says of its names, from the multiset it equals.
proof fn lemma_result_names(es: Seq<Result<DirEntryInfo, String>>, r: Seq<String>)
    requires
        views(r).to_multiset() == json_names(es).to_multiset(),
    ensures
        forall|i: int| 0 <= i < r.len() ==> names_listed_entry(es, #[trigger] r[i]@),
        distinct_names(es) ==> forall|i: int, j: int|
            0 <= i < j < r.len() ==> #[trigger] r[i]@ != #[trigger] r[j]@,
{
    let v = views(r);
    v.to_multiset_ensures();
    json_names(es).to_multiset_ensures();
    assert forall|i: int| 0 <= i < r.len() implies names_listed_entry(es, #[trigger] r[i]@) by {
        assert(v[i] == r[i]@);
        assert(v.contains(r[i]@));
        assert(v.to_multiset().count(r[i]@) > 0);
        assert(json_names(es).to_multiset().count(r[i]@) > 0);
        lemma_json_names_from_entries(es, r[i]@);
    }
    if distinct_names(es) {
        assert forall|i: int, j: int| 0 <= i < j < r.len() implies #[trigger] r[i]@ != #[trigger] r[j]@ by {
            if r[i]@ == r[j]@ {
                let x = r[i]@;
                lemma_json_names_once(es, x);
                let w = v.remove(i);
                w.to_multiset_ensures();
                assert(w[j - 1] == v[j]);
                assert(w.contains(x));
                assert(v[i] == x);
                assert(w.to_multiset() =~= v.to_multiset().remove(x));
                assert(w.to_multiset().count(x) > 0);
                assert(v.to_multiset().count(x) >= 2);
            }
        }
    }
}

/// The listing holds base names only: when no entry's name holds a path
/// separator, no listed name does, so nothing comes from a subdirectory.
pub proof fn lemma_listing_holds_base_names(es: Seq<Result<DirEntryInfo, String>>, r: Seq<String>, sep: char)
    requires
        views(r).to_multiset() == json_names(es).to_multiset(),
        forall|k: int|
            0 <= k < es.len() && (#[trigger] es[k]) is Ok && es[k]->Ok_0.name is Some
                ==> !es[k]->Ok_0.name->Some_0@.contains(sep),
    ensures
        forall|i: int| 0 <= i < r.len() ==> !(#[trigger] r[i]@).contains(sep),
{
    lemma_result_names(es, r);
    assert forall|i: int| 0 <= i < r.len() implies !(#[trigger] r[i]@).contains(sep) by {
        assert(names_listed_entry(es, r[i]@));
        let k = choose|k: int| 0 <= k < es.len() && is_listed(#[trigger] es[k]) && es[k]->Ok_0.name->Some_0@ == r[i]@;
    }
}

/// Inserts `x` into the sorted vector `found` so that it stays sorted.
fn insert_sorted(found: &mut Vec<String>, x: String)
    requires
        is_sorted(views(old(found)@)),
    ensures
        is_sorted(views(final(found)@)),
        views(final(found)@).to_multiset() == views(old(found)@).to_multiset().insert(x@),
{
    let mut k: usize = 0;
    while k < found.len() && name_le(found[k].as_str(), x.as_str())
        invariant
            k <= found.len(),
            forall|j: int| 0 <= j < k ==> lex_le(#[trigger] found@[j]@, x@),
        decreases found.len() - k,
    {
        k = k + 1;
    }
    let ghost before = found@;
    proof {
        if k < before.len() {
            lemma_lex_total(before[k as int]@, x@);
        }
    }
    found.insert(k, x);
    proof {
        lemma_insert_views(before, k as int, x);
        let s = views(found@);
        let b = views(before);
        assert forall|i: int, j: int| 0 <= i < j < s.len() implies lex_le(#[trigger] s[i], #[trigger] s[j]) by {
            if j < k {
                assert(s[i] == b[i] && s[j] == b[j]);
            } else if j == k {
                assert(s[i] == b[i]);
            } else if i == k {
                assert(s[j] == b[j - 1]);
                if j - 1 > k {
                    lemma_lex_trans(x@, b[k as int], b[j - 1]);
                }
            } else if i < k {
                assert(s[i] == b[i] && s[j] == b[j - 1]);
            } else {
                assert(s[i] == b[i - 1] && s[j] == b[j - 1]);
            }
        }
    }
}

/// Selects, from a directory listing, the base names of the JSON files in it,
/// sorted. Directories, names without the extension `json` (matched
/// case-sensitively) and names that are not valid Unicode are skipped; the
/// first entry that could not be read fails the whole listing.
pub fn list_json_files(directory: &str, listing: DirListing) -> (r: Result<Vec<String>, FileError>)
    ensures
        match listing {
            DirListing::Missing => r is Err && r->Err_0 is DirectoryNotFound
                && r->Err_0->DirectoryNotFound_path@ == directory@,
            DirListing::Unreadable(d) => r is Err && r->Err_0 is ReadDir
                && r->Err_0->ReadDir_path@ == directory@ && r->Err_0->ReadDir_detail == d,
            DirListing::Entries(es) => if (forall|k: int| 0 <= k < es@.len() ==> (#[trigger] es@[k]) is Ok) {
                r is Ok && is_sorted(views(r->Ok_0@))
                    && views(r->Ok_0@).to_multiset() == json_names(es@).to_multiset()
                    && (forall|i: int| 0 <= i < r->Ok_0@.len() ==> names_listed_entry(es@, #[trigger] r->Ok_0@[i]@))
                    && (distinct_names(es@) ==> forall|i: int, j: int|
                        0 <= i < j < r->Ok_0@.len() ==> #[trigger] r->Ok_0@[i]@ != #[trigger] r->Ok_0@[j]@)
            } else {
                r is Err && r->Err_0 is DirEntry && exists|k: int|
                    0 <= k < es@.len() && (#[trigger] es@[k]) is Err
                        && r->Err_0->DirEntry_detail == es@[k]->Err_0
                        && forall|j: int| 0 <= j < k ==> (#[trigger] es@[j]) is Ok
            },
        },
{
    match listing {
        DirListing::Missing => Err(FileError::DirectoryNotFound { path: String::from_str(directory) }),
        DirListing::Unreadable(d) => Err(FileError::ReadDir { path: String::from_str(directory), detail: d }),
        DirListing::Entries(es) => {
            let mut found: Vec<String> = Vec::new();
            let mut i: usize = 0;
            proof {
                assert(es@.subrange(0, 0) =~= Seq::<Result<DirEntryInfo, String>>::empty());
                assert(views(found@) =~= Seq::<Seq<char>>::empty());
                assert(Seq::<Seq<char>>::empty().to_multiset() =~= Multiset::empty()) by {
                    Seq::<Seq<char>>::empty().to_multiset_ensures();
                }
            }
            #[verifier::loop_isolation(false)]
            while i < es.len()
                invariant
                    i <= es@.len(),
                    forall|j: int| 0 <= j < i ==> (#[trigger] es@[j]) is Ok,
                    is_sorted(views(found@)),
                    views(found@).to_multiset() == json_names(es@.subrange(0, i as int)).to_multiset(),
                decreases es.len() - i,
            {
                proof {
                    assert(es@.subrange(0, i + 1).drop_last() =~= es@.subrange(0, i as int));
                    assert(es@.subrange(0, i + 1).last() == es@[i as int]);
                }
                match &es[i] {
                    Err(d) => {
                        let detail = d.clone();
                        proof {
                            let k = i as int;
                            assert(es@[k] is Err && detail == es@[k]->Err_0);
                            assert(forall|j: int| 0 <= j < k ==> (#[trigger] es@[j]) is Ok);
                        }
                        return Err(FileError::DirEntry { detail });
                    },
                    Ok(e) => {
                        if !e.is_dir {
                            match &e.name {
                                Some(n) => {
                                    if is_json_file_name(n.as_str()) {
                                        let ghost m = json_names(es@.subrange(0, i as int));
                                        insert_sorted(&mut found, n.clone());
                                        proof {
                                            m.to_multiset_ensures();
                                        }
                                    }
                                },
                                None => {},
                            }
                        }
                    },
                }
                i = i + 1;
            }
            proof {
                assert(es@.subrange(0, i as int) =~= es@);
                lemma_result_names(es@, found@);
            }
            Ok(found)
        },
    }
}

} // verus!
