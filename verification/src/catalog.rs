//! The entry catalog: store root resolution, entry file paths, and the scan
//! that turns a directory walk into an ordered catalog.
//!
//! The walk itself is filesystem work and happens outside; it hands in every
//! file it encountered together with whether the file's metadata could be
//! read. Everything the catalog promises — which files become entries, what
//! their identifiers are, and in what order they stand — is decided and
//! proved here.

use vstd::prelude::*;
use crate::errors::{ErrorView, PasswordError};
use crate::text::{has_prefix, has_suffix, opt_view, str_has_prefix, str_has_suffix, str_eq};

verus! {

/// A path is taken as absolute when it starts at the root separator.
pub open spec fn is_absolute_path(p: Seq<char>) -> bool {
    p.len() > 0 && p[0] == '/'
}

/// Joining a relative path onto a base directory; an empty relative path
/// names the base itself.
pub open spec fn spec_join(base: Seq<char>, rel: Seq<char>) -> Seq<char> {
    if rel.len() == 0 {
        base
    } else {
        base + "/"@ + rel
    }
}

/// The part of `p` after its home anchor (`$HOME` or `~` as the first path
/// component), if it has one.
pub open spec fn home_relative(p: Seq<char>) -> Option<Seq<char>> {
    if p == "$HOME"@ {
        Option::Some(Seq::empty())
    } else if has_prefix(p, "$HOME/"@) {
        Option::Some(p.skip("$HOME/"@.len() as int))
    } else if p == "~"@ {
        Option::Some(Seq::empty())
    } else if has_prefix(p, "~/"@) {
        Option::Some(p.skip("~/"@.len() as int))
    } else {
        Option::None
    }
}

/// Where the store root lies, given the environment override and the home
/// directory: an absolute override is used as-is; a home-anchored override
/// is resolved against the home directory; anything else falls back to the
/// fixed default under the home directory. Without a home directory the
/// root cannot be determined.
pub open spec fn spec_resolve_root(o: Option<Seq<char>>, h: Option<Seq<char>>) -> Option<
    Seq<char>,
> {
    match h {
        Option::None => Option::None,
        Option::Some(home) => Option::Some(
            match o {
                Option::Some(p) => if is_absolute_path(p) {
                    p
                } else {
                    match home_relative(p) {
                        Option::Some(rel) => spec_join(home, rel),
                        Option::None => spec_join(home, ".password-store"@),
                    }
                },
                Option::None => spec_join(home, ".password-store"@),
            },
        ),
    }
}

fn join_home(home: String, rel: &str) -> (r: String)
    ensures
        r@ == spec_join(home@, rel@),
{
    if rel.unicode_len() == 0 {
        home
    } else {
        let mut s = home;
        s.append("/");
        s.append(rel);
        s
    }
}

/// Resolves the store root from the override variable's value and the home
/// directory, exactly as `spec_resolve_root` lays it out; fails with
/// `StoreUnresolvable` exactly when no home directory is known.
pub fn resolve_store_root(override_dir: Option<String>, home: Option<String>) -> (r: Result<
    String,
    PasswordError,
>)
    ensures
        match spec_resolve_root(opt_view(&override_dir), opt_view(&home)) {
            Option::Some(root) => r matches Ok(s) && s@ == root,
            Option::None => r matches Err(e) && e@ == ErrorView::StoreUnresolvable,
        },
{
    proof {
        reveal_strlit("");
    }
    let home = match home {
        Option::Some(h) => h,
        Option::None => {
            return Err(PasswordError::StoreUnresolvable);
        },
    };
    match override_dir {
        Option::Some(p) => {
            if p.unicode_len() > 0 && p.as_str().get_char(0) == '/' {
                Ok(p)
            } else if str_eq(p.as_str(), "$HOME") {
                Ok(join_home(home, ""))
            } else if str_has_prefix(p.as_str(), "$HOME/") {
                proof {
                    reveal_strlit("$HOME/");
                }
                let rel = p.as_str().substring_char(6, p.as_str().unicode_len());
                proof {
                    assert(rel@ =~= p@.skip("$HOME/"@.len() as int));
                }
                Ok(join_home(home, rel))
            } else if str_eq(p.as_str(), "~") {
                proof {
                    reveal_strlit("~");
                    reveal_strlit("$HOME");
                    reveal_strlit("$HOME/");
                }
                Ok(join_home(home, ""))
            } else if str_has_prefix(p.as_str(), "~/") {
                proof {
                    reveal_strlit("~/");
                }
                let rel = p.as_str().substring_char(2, p.as_str().unicode_len());
                proof {
                    assert(rel@ =~= p@.skip("~/"@.len() as int));
                }
                Ok(join_home(home, rel))
            } else {
                Ok(join_home(home, ".password-store"))
            }
        },
        Option::None => Ok(join_home(home, ".password-store")),
    }
}

} // verus!

verus! {

/// One file met during the directory walk: its full path and whether its
/// metadata could be read.
#[derive(Debug, Clone)]
pub struct ScannedFile {
    pub path: String,
    pub metadata_ok: bool,
}

impl View for ScannedFile {
    type V = (Seq<char>, bool);

    open spec fn view(&self) -> (Seq<char>, bool) {
        (self.path@, self.metadata_ok)
    }
}

impl ScannedFile {
    pub fn new(path: String, metadata_ok: bool) -> (r: Self)
        ensures
            r@ == (path@, metadata_ok),
    {
        ScannedFile { path, metadata_ok }
    }
}

/// A walked file becomes an entry exactly when its metadata was readable,
/// it lies under the store root, and its name ends in the encryption
/// suffix. (A walk of the root yields no path outside it; such a path is
/// excluded all the same.)
pub open spec fn is_entry_file(root: Seq<char>, f: (Seq<char>, bool)) -> bool {
    &&& f.1
    &&& has_prefix(f.0, root + "/"@)
    &&& has_suffix(f.0, ".gpg"@)
    &&& f.0.len() >= root.len() + 1 + ".gpg"@.len()
}

/// The identifier of an entry file: its path relative to the root, with the
/// encryption suffix stripped.
pub open spec fn entry_id_of(root: Seq<char>, path: Seq<char>) -> Seq<char> {
    path.subrange(root.len() + 1 as int, path.len() - ".gpg"@.len())
}

/// The identifiers that a walk yields, in walk order: one per entry file.
pub open spec fn catalog_ids(root: Seq<char>, files: Seq<(Seq<char>, bool)>) -> Seq<Seq<char>>
    decreases files.len(),
{
    if files.len() == 0 {
        Seq::empty()
    } else {
        let rest = catalog_ids(root, files.drop_last());
        if is_entry_file(root, files.last()) {
            rest.push(entry_id_of(root, files.last().0))
        } else {
            rest
        }
    }
}

use crate::password_info::PasswordInfo;

fn collect_entries(root: &str, files: &Vec<ScannedFile>) -> (r: Vec<PasswordInfo>)
    ensures
        r@.map_values(|p: PasswordInfo| p@) == catalog_ids(
            root@,
            files@.map_values(|f: ScannedFile| f@),
        ),
{
    let n = files.len();
    let rootlen = root.unicode_len();
    let mut root_slash = root.to_owned();
    root_slash.append("/");
    let mut r: Vec<PasswordInfo> = Vec::new();
    let mut i: usize = 0;
    let ghost fsv = files@.map_values(|f: ScannedFile| f@);
    proof {
        reveal_strlit(".gpg");
        reveal_strlit("/");
        assert(fsv.take(0) =~= Seq::<(Seq<char>, bool)>::empty());
        assert(r@.map_values(|p: PasswordInfo| p@) =~= Seq::<Seq<char>>::empty());
    }
    while i < n
        invariant
            i <= n,
            n == files@.len(),
            fsv == files@.map_values(|f: ScannedFile| f@),
            rootlen == root@.len(),
            root_slash@ == root@ + "/"@,
            ".gpg"@.len() == 4,
            r@.map_values(|p: PasswordInfo| p@) == catalog_ids(root@, fsv.take(i as int)),
        decreases n - i,
    {
        let f = &files[i];
        let flen = f.path.as_str().unicode_len();
        let selected = f.metadata_ok && str_has_prefix(f.path.as_str(), root_slash.as_str())
            && str_has_suffix(f.path.as_str(), ".gpg") && flen > rootlen && flen - rootlen >= 5;
        let ghost rmap = r@.map_values(|p: PasswordInfo| p@);
        if selected {
            let id = f.path.as_str().substring_char(rootlen + 1, flen - 4).to_owned();
            proof {
                assert(id@ == entry_id_of(root@, f.path@));
            }
            r.push(PasswordInfo::new(id));
            proof {
                assert(r@.map_values(|p: PasswordInfo| p@) =~= rmap.push(
                    entry_id_of(root@, f.path@),
                ));
            }
        }
        proof {
            assert(fsv.take(i + 1).drop_last() =~= fsv.take(i as int));
            assert(fsv.take(i + 1).last() == fsv[i as int]);
            assert(fsv[i as int] == f@);
            assert(selected == is_entry_file(root@, f@));
        }
        i = i + 1;
    }
    proof {
        assert(fsv.take(n as int) =~= fsv);
    }
    r
}

} // verus!

verus! {

use vstd::relations::sorted_by;
use crate::text::{lex_le_fn, lex_leq, str_lex_le};
use crate::text::{lemma_lex_connected, lemma_lex_reflexive, lemma_lex_transitive};

fn min_index(v: &Vec<PasswordInfo>) -> (m: usize)
    requires
        v@.len() > 0,
    ensures
        m < v@.len(),
        forall|k: int| 0 <= k < v@.len() ==> lex_leq(v@[m as int]@, #[trigger] v@[k]@),
{
    let n = v.len();
    let mut m: usize = 0;
    let mut j: usize = 1;
    proof {
        lemma_lex_reflexive(v@[0]@);
    }
    while j < n
        invariant
            m < j <= n,
            n == v@.len(),
            forall|k: int| 0 <= k < j ==> lex_leq(v@[m as int]@, #[trigger] v@[k]@),
        decreases n - j,
    {
        if str_lex_le(v[j].pass_id.as_str(), v[m].pass_id.as_str()) {
            proof {
                assert forall|k: int| 0 <= k < j + 1 implies lex_leq(
                    v@[j as int]@,
                    #[trigger] v@[k]@,
                ) by {
                    if k < j {
                        lemma_lex_transitive(v@[j as int]@, v@[m as int]@, v@[k]@);
                    } else {
                        lemma_lex_reflexive(v@[j as int]@);
                    }
                }
            }
            m = j;
        } else {
            proof {
                lemma_lex_connected(v@[j as int]@, v@[m as int]@);
            }
        }
        j = j + 1;
    }
    m
}

/// Sorts a catalog by entry identifier, ascending in the lexicographic
/// order; the entries are kept, only rearranged.
pub fn sort_infos(infos: Vec<PasswordInfo>) -> (r: Vec<PasswordInfo>)
    ensures
        sorted_by(r@.map_values(|p: PasswordInfo| p@), lex_le_fn()),
        r@.map_values(|p: PasswordInfo| p@).to_multiset() == infos@.map_values(
            |p: PasswordInfo| p@,
        ).to_multiset(),
{
    broadcast use vstd::seq_lib::group_to_multiset_ensures;
    broadcast use vstd::multiset::group_multiset_axioms;

    let ghost origms = infos@.map_values(|p: PasswordInfo| p@).to_multiset();
    let mut v = infos;
    let mut out: Vec<PasswordInfo> = Vec::new();
    proof {
        assert(out@.map_values(|p: PasswordInfo| p@) =~= Seq::<Seq<char>>::empty());
        assert(out@.map_values(|p: PasswordInfo| p@).to_multiset().add(
            v@.map_values(|p: PasswordInfo| p@).to_multiset(),
        ) =~= origms);
    }
    while v.len() > 0
        invariant
            out@.map_values(|p: PasswordInfo| p@).to_multiset().add(
                v@.map_values(|p: PasswordInfo| p@).to_multiset(),
            ) == origms,
            sorted_by(out@.map_values(|p: PasswordInfo| p@), lex_le_fn()),
            forall|a: int, b: int|
                0 <= a < out@.len() && 0 <= b < v@.len() ==> lex_leq(
                    #[trigger] out@[a]@,
                    #[trigger] v@[b]@,
                ),
        decreases v.len(),
    {
        broadcast use vstd::seq_lib::group_to_multiset_ensures;
        broadcast use vstd::multiset::group_multiset_axioms;

        let ghost outmap = out@.map_values(|p: PasswordInfo| p@);
        let ghost vmap = v@.map_values(|p: PasswordInfo| p@);
        let m = min_index(&v);
        let ghost xv = v@[m as int]@;
        let x = v.remove(m);
        out.push(x);
        proof {
            assert(v@.map_values(|p: PasswordInfo| p@) =~= vmap.remove(m as int));
            assert(out@.map_values(|p: PasswordInfo| p@) =~= outmap.push(xv));
            assert(vmap[m as int] == xv);
            assert(vmap.remove(m as int).to_multiset() =~= vmap.to_multiset().remove(xv));
            assert(outmap.push(xv).to_multiset() =~= outmap.to_multiset().insert(xv));
            assert(vmap.to_multiset().count(xv) > 0) by {
                assert(vmap.contains(xv));
            }
            assert(outmap.to_multiset().insert(xv).add(vmap.to_multiset().remove(xv))
                =~= outmap.to_multiset().add(vmap.to_multiset()));
            let newmap = outmap.push(xv);
            assert forall|i: int, j: int| 0 <= i < j < newmap.len() implies lex_leq(
                #[trigger] newmap[i],
                #[trigger] newmap[j],
            ) by {
                if j < newmap.len() - 1 {
                    assert(lex_le_fn()(outmap[i], outmap[j]));
                } else {
                    assert(lex_leq(outmap[i], vmap[m as int]));
                }
            }
            assert(sorted_by(newmap, lex_le_fn()));
        }
    }
    proof {
        assert(v@.map_values(|p: PasswordInfo| p@) =~= Seq::<Seq<char>>::empty());
        assert(out@.map_values(|p: PasswordInfo| p@).to_multiset().add(
            v@.map_values(|p: PasswordInfo| p@).to_multiset(),
        ) =~= out@.map_values(|p: PasswordInfo| p@).to_multiset());
    }
    out
}

/// Builds the catalog from a directory walk: exactly the entry files become
/// entries, each identifier is the relative path with the suffix stripped,
/// and the result is sorted ascending by identifier — so it does not depend
/// on the order in which the walk met the files.
pub fn scan(root: &str, files: &Vec<ScannedFile>) -> (r: Vec<PasswordInfo>)
    ensures
        sorted_by(r@.map_values(|p: PasswordInfo| p@), lex_le_fn()),
        r@.map_values(|p: PasswordInfo| p@).to_multiset() == catalog_ids(
            root@,
            files@.map_values(|f: ScannedFile| f@),
        ).to_multiset(),
{
    let entries = collect_entries(root, files);
    sort_infos(entries)
}

} // verus!

verus! {

use crate::text::lemma_lex_total_ordering;

proof fn lemma_catalog_ids_insertion(root: Seq<char>, files: Seq<(Seq<char>, bool)>, i: int)
    requires
        0 <= i < files.len(),
    ensures
        catalog_ids(root, files).to_multiset() == if is_entry_file(root, files[i]) {
            catalog_ids(root, files.remove(i)).to_multiset().insert(entry_id_of(root, files[i].0))
        } else {
            catalog_ids(root, files.remove(i)).to_multiset()
        },
    decreases files.len(),
{
    broadcast use vstd::seq_lib::group_to_multiset_ensures;
    broadcast use vstd::multiset::group_multiset_axioms;

    let x = files[i];
    let g = files.remove(i);
    if i == files.len() - 1 {
        assert(g =~= files.drop_last());
        if is_entry_file(root, x) {
            assert(catalog_ids(root, files) == catalog_ids(root, g).push(entry_id_of(root, x.0)));
            assert(catalog_ids(root, g).push(entry_id_of(root, x.0)).to_multiset()
                =~= catalog_ids(root, g).to_multiset().insert(entry_id_of(root, x.0)));
        } else {
            assert(catalog_ids(root, files) == catalog_ids(root, g));
        }
    } else {
        let last = files.last();
        let fdl = files.drop_last();
        assert(g.last() == last);
        assert(g.drop_last() =~= fdl.remove(i));
        assert(fdl[i] == x);
        lemma_catalog_ids_insertion(root, fdl, i);
        if is_entry_file(root, last) {
            assert(catalog_ids(root, files) == catalog_ids(root, fdl).push(
                entry_id_of(root, last.0),
            ));
            assert(catalog_ids(root, g) == catalog_ids(root, fdl.remove(i)).push(
                entry_id_of(root, last.0),
            ));
            if is_entry_file(root, x) {
                assert(catalog_ids(root, files).to_multiset() =~= catalog_ids(
                    root,
                    g,
                ).to_multiset().insert(entry_id_of(root, x.0)));
            } else {
                assert(catalog_ids(root, files).to_multiset() =~= catalog_ids(
                    root,
                    g,
                ).to_multiset());
            }
        } else {
            assert(catalog_ids(root, files) == catalog_ids(root, fdl));
            assert(catalog_ids(root, g) == catalog_ids(root, fdl.remove(i)));
        }
    }
}

/// Two walks that met the same files, in any order, yield the same bag of
/// entry identifiers.
pub proof fn lemma_catalog_ids_permutation(
    root: Seq<char>,
    files1: Seq<(Seq<char>, bool)>,
    files2: Seq<(Seq<char>, bool)>,
)
    requires
        files1.to_multiset() == files2.to_multiset(),
    ensures
        catalog_ids(root, files1).to_multiset() == catalog_ids(root, files2).to_multiset(),
    decreases files1.len(),
{
    broadcast use vstd::seq_lib::group_to_multiset_ensures;
    broadcast use vstd::multiset::group_multiset_axioms;

    if files1.len() == 0 {
        assert(files1.to_multiset().len() == files1.len());
        assert(files2.to_multiset().len() == files2.len());
        assert(files2.len() == 0);
    } else {
        let x = files1.last();
        let i1 = files1.len() - 1;
        assert(files1.to_multiset().count(x) > 0) by {
            assert(files1.contains(x));
        }
        assert(files2.contains(x));
        let j = choose|j: int| 0 <= j < files2.len() && files2[j] == x;
        let f1p = files1.drop_last();
        let f2p = files2.remove(j);
        assert(f1p =~= files1.remove(i1));
        assert(f1p.to_multiset() =~= files1.to_multiset().remove(x));
        assert(f2p.to_multiset() =~= files2.to_multiset().remove(x));
        lemma_catalog_ids_permutation(root, f1p, f2p);
        lemma_catalog_ids_insertion(root, files2, j);
        if is_entry_file(root, x) {
            assert(catalog_ids(root, files1) == catalog_ids(root, f1p).push(
                entry_id_of(root, x.0),
            ));
            assert(catalog_ids(root, files1).to_multiset() =~= catalog_ids(
                root,
                f1p,
            ).to_multiset().insert(entry_id_of(root, x.0)));
        } else {
            assert(catalog_ids(root, files1) == catalog_ids(root, f1p));
        }
    }
}

/// The catalog is independent of filesystem traversal order: whatever order
/// two walks met the same files in, the sorted identifier sequences that
/// `scan` promises for them are equal.
pub proof fn lemma_scan_order_independent(
    root: Seq<char>,
    files1: Seq<(Seq<char>, bool)>,
    files2: Seq<(Seq<char>, bool)>,
    ids1: Seq<Seq<char>>,
    ids2: Seq<Seq<char>>,
)
    requires
        files1.to_multiset() == files2.to_multiset(),
        sorted_by(ids1, lex_le_fn()),
        sorted_by(ids2, lex_le_fn()),
        ids1.to_multiset() == catalog_ids(root, files1).to_multiset(),
        ids2.to_multiset() == catalog_ids(root, files2).to_multiset(),
    ensures
        ids1 == ids2,
{
    lemma_catalog_ids_permutation(root, files1, files2);
    lemma_lex_total_ordering();
    vstd::seq_lib::lemma_sorted_unique(ids1, ids2, lex_le_fn());
    assert(ids1 =~= ids2);
}

} // verus!

verus! {

/// The on-disk encrypted file of an entry: the root, the identifier, and
/// the encryption suffix.
pub open spec fn spec_entry_file_path(root: Seq<char>, pass_id: Seq<char>) -> Seq<char> {
    root + "/"@ + pass_id + ".gpg"@
}

/// Resolves an entry's encrypted file from its identifier and the root.
pub fn entry_file_path(root: &str, pass_id: &str) -> (r: String)
    ensures
        r@ == spec_entry_file_path(root@, pass_id@),
{
    let mut s = root.to_owned();
    s.append("/");
    s.append(pass_id);
    s.append(".gpg");
    s
}

} // verus!
