//! The development database set-up: which SQL files run, how a file is cut
//! into statements, and how the project root is recognised.
use crate::text::str_chars;
use vstd::prelude::*;
use vstd::string::*;

verus! {

/// The file that recreates the database; it runs first, on its own.
pub open spec fn sql_recreate_db() -> Seq<char> {
    "00-recreate-db.sql"@
}

/// Whether `s` ends with `suffix`.
pub open spec fn spec_ends_with(s: Seq<char>, suffix: Seq<char>) -> bool {
    suffix.len() <= s.len() && s.skip(s.len() - suffix.len()) == suffix
}

/// Whether `s` ends with `suffix`.
pub fn ends_with(s: &str, suffix: &str) -> (res: bool)
    ensures
        res == spec_ends_with(s@, suffix@),
{
    let a = str_chars(s);
    let b = str_chars(suffix);
    if b.len() > a.len() {
        return false;
    }
    let off = a.len() - b.len();
    let mut i: usize = 0;
    while i < b.len()
        invariant
            i <= b@.len(),
            off + b@.len() == a@.len(),
            a@.len() <= usize::MAX,
            a@ == s@,
            b@ == suffix@,
            forall|j: int| 0 <= j < i ==> a@[off + j] == #[trigger] b@[j],
        decreases b@.len() - i,
    {
        if a[off + i] != b[i] {
            assert(s@.skip(off as int)[i as int] != suffix@[i as int]);
            return false;
        }
        i = i + 1;
    }
    assert(s@.skip(off as int) =~= suffix@);
    true
}

/// A file of the set-up directory runs after the recreation when it is an
/// SQL file other than the recreation file.
pub fn is_app_sql_file(path: &str) -> (res: bool)
    ensures
        res == (spec_ends_with(path@, ".sql"@) && !spec_ends_with(path@, sql_recreate_db())),
{
    ends_with(path, ".sql") && !ends_with(path, "00-recreate-db.sql")
}

/// Whether a path names an SQL file that runs after the recreation file.
pub open spec fn is_app_sql_path(p: Seq<char>) -> bool {
    spec_ends_with(p, ".sql"@) && !spec_ends_with(p, sql_recreate_db())
}

/// The paths of `paths` that name SQL files running after the recreation
/// file, in their order.
pub open spec fn app_sql_paths(paths: Seq<Seq<char>>) -> Seq<Seq<char>>
    decreases paths.len(),
{
    if paths.len() == 0 {
        Seq::empty()
    } else if is_app_sql_path(paths.last()) {
        app_sql_paths(paths.drop_last()).push(paths.last())
    } else {
        app_sql_paths(paths.drop_last())
    }
}

/// The order of paths: character by character, a proper prefix first.
pub open spec fn path_le(a: Seq<char>, b: Seq<char>) -> bool
    decreases a.len(),
{
    if a.len() == 0 {
        true
    } else if b.len() == 0 {
        false
    } else if a[0] != b[0] {
        a[0] < b[0]
    } else {
        path_le(a.drop_first(), b.drop_first())
    }
}

/// Any two paths are ordered one way or the other.
pub proof fn lemma_path_le_total(a: Seq<char>, b: Seq<char>)
    ensures
        path_le(a, b) || path_le(b, a),
    decreases a.len(),
{
    if a.len() > 0 && b.len() > 0 && a[0] == b[0] {
        lemma_path_le_total(a.drop_first(), b.drop_first());
    }
}

/// The order of paths is transitive.
pub proof fn lemma_path_le_transitive(a: Seq<char>, b: Seq<char>, c: Seq<char>)
    requires
        path_le(a, b),
        path_le(b, c),
    ensures
        path_le(a, c),
    decreases a.len(),
{
    if a.len() > 0 && b.len() > 0 && c.len() > 0 && a[0] == b[0] && b[0] == c[0] {
        lemma_path_le_transitive(a.drop_first(), b.drop_first(), c.drop_first());
    }
}

/// Two paths ordered both ways are the same path, so a sorted list of paths
/// is fixed by the paths it holds.
pub proof fn lemma_path_le_antisymmetric(a: Seq<char>, b: Seq<char>)
    requires
        path_le(a, b),
        path_le(b, a),
    ensures
        a == b,
    decreases a.len(),
{
    if a.len() > 0 && b.len() > 0 {
        assert(a[0] == b[0]);
        lemma_path_le_antisymmetric(a.drop_first(), b.drop_first());
        assert forall|i: int| 0 <= i < a.len() implies a[i] == b[i] by {
            if i > 0 {
                assert(a[i] == a.drop_first()[i - 1]);
                assert(b[i] == b.drop_first()[i - 1]);
            }
        }
        assert(a =~= b);
    } else {
        assert(a.len() == 0 && b.len() == 0);
        assert(a =~= b);
    }
}

/// Two paths with a common beginning of `i` characters compare as what
/// follows it.
proof fn lemma_path_le_skip(a: Seq<char>, b: Seq<char>, i: int)
    requires
        0 <= i <= a.len(),
        i <= b.len(),
        forall|j: int| 0 <= j < i ==> a[j] == b[j],
    ensures
        path_le(a, b) == path_le(a.skip(i), b.skip(i)),
    decreases i,
{
    if i == 0 {
        assert(a.skip(0) =~= a);
        assert(b.skip(0) =~= b);
    } else {
        assert(a[0] == b[0]);
        lemma_path_le_skip(a.drop_first(), b.drop_first(), i - 1);
        assert(a.drop_first().skip(i - 1) =~= a.skip(i));
        assert(b.drop_first().skip(i - 1) =~= b.skip(i));
    }
}

/// Whether path `a` comes before or equals path `b`.
pub fn path_le_exec(a: &str, b: &str) -> (res: bool)
    ensures
        res == path_le(a@, b@),
{
    let x = str_chars(a);
    let y = str_chars(b);
    let mut i: usize = 0;
    while i < x.len() && i < y.len() && x[i] == y[i]
        invariant
            i <= x@.len(),
            i <= y@.len(),
            x@ == a@,
            y@ == b@,
            forall|j: int| 0 <= j < i ==> x@[j] == y@[j],
        decreases x@.len() - i,
    {
        i = i + 1;
    }
    proof {
        lemma_path_le_skip(a@, b@, i as int);
        if i < x.len() && i < y.len() {
            assert(a@.skip(i as int)[0] == a@[i as int]);
            assert(b@.skip(i as int)[0] == b@[i as int]);
        }
    }
    if i == x.len() {
        true
    } else if i == y.len() {
        false
    } else {
        x[i] < y[i]
    }
}

/// The views of a list of paths.
pub open spec fn path_views(v: Seq<String>) -> Seq<Seq<char>> {
    v.map_values(|s: String| s@)
}

/// The SQL files that run after the recreation file, out of the paths of
/// the set-up directory: exactly those ending in `.sql` other than the
/// recreation file, each as often as it was given, in ascending path order.
/// (Within one directory this is the order in which paths sort.)
pub fn dev_db_plan(paths: Vec<String>) -> (res: Vec<String>)
    ensures
        path_views(res@).to_multiset() == app_sql_paths(path_views(paths@)).to_multiset(),
        forall|i: int, j: int| 0 <= i < j < res@.len() ==> path_le(#[trigger] res@[i]@, #[trigger] res@[j]@),
{
    broadcast use vstd::seq_lib::group_to_multiset_ensures, vstd::multiset::group_multiset_axioms;
    let ghost all = path_views(paths@);
    let mut rest = paths;
    let mut res: Vec<String> = Vec::new();
    while rest.len() > 0
        invariant
            app_sql_paths(path_views(rest@)).to_multiset().add(path_views(res@).to_multiset())
                == app_sql_paths(all).to_multiset(),
            forall|i: int, j: int| 0 <= i < j < res@.len() ==> path_le(#[trigger] res@[i]@, #[trigger] res@[j]@),
        decreases rest@.len(),
    {
        let ghost before = rest@;
        let p = rest.pop().unwrap();
        proof {
            assert(path_views(rest@) =~= path_views(before).drop_last());
            assert(path_views(before).last() == p@);
        }
        if is_app_sql_file(p.as_str()) {
            let mut k: usize = 0;
            while k < res.len() && path_le_exec(res[k].as_str(), p.as_str())
                invariant
                    k <= res@.len(),
                    forall|j: int| 0 <= j < k ==> path_le(#[trigger] res@[j]@, p@),
                decreases res@.len() - k,
            {
                k = k + 1;
            }
            let ghost old_res = res@;
            proof {
                if k < res.len() {
                    lemma_path_le_total(res@[k as int]@, p@);
                }
            }
            res.insert(k, p);
            proof {
                old_res.insert_ensures(k as int, p);
                assert(path_views(res@) =~= path_views(old_res).insert(k as int, p@));
                assert forall|i: int, j: int| 0 <= i < j < res@.len() implies path_le(#[trigger] res@[i]@, #[trigger] res@[j]@) by {
                    if j < k {
                    } else if i < k && j == k {
                    } else if i < k {
                        assert(res@[j] == old_res[j - 1]);
                    } else if i == k {
                        assert(res@[j] == old_res[j - 1]);
                        if j - 1 > k {
                            lemma_path_le_transitive(p@, old_res[k as int]@, old_res[j - 1]@);
                        }
                    } else {
                        assert(res@[i] == old_res[i - 1]);
                        assert(res@[j] == old_res[j - 1]);
                    }
                }
                assert(app_sql_paths(path_views(before)) == app_sql_paths(path_views(rest@)).push(p@));
                assert(path_views(res@).to_multiset() == path_views(old_res).to_multiset().insert(p@)) by {
                    vstd::seq_lib::to_multiset_insert(path_views(old_res), k as int, p@);
                }
                vstd::seq_lib::to_multiset_build(app_sql_paths(path_views(rest@)), p@);
                assert(app_sql_paths(path_views(rest@)).to_multiset().add(path_views(res@).to_multiset())
                    =~= app_sql_paths(path_views(before)).to_multiset().add(path_views(old_res).to_multiset()));
            }
        } else {
            proof {
                assert(app_sql_paths(path_views(before)) == app_sql_paths(path_views(rest@)));
            }
        }
    }
    proof {
        assert(path_views(rest@) =~= Seq::<Seq<char>>::empty());
        assert(app_sql_paths(path_views(rest@)).to_multiset() =~= vstd::multiset::Multiset::empty());
        assert(path_views(res@).to_multiset() =~= app_sql_paths(all).to_multiset());
    }
    res
}

/// The number of characters of `s` before its first `;`.
pub open spec fn semi_run(s: Seq<char>) -> nat
    decreases s.len(),
{
    if s.len() > 0 && s[0] != ';' {
        1 + semi_run(s.drop_first())
    } else {
        0
    }
}

/// The pieces of `s` between the `;` characters, as `str::split(';')` gives
/// them (empty pieces included).
pub open spec fn split_semicolons(s: Seq<char>) -> Seq<Seq<char>>
    decreases s.len(),
{
    let n = semi_run(s);
    if n >= s.len() {
        seq![s]
    } else {
        seq![s.take(n as int)] + split_semicolons(s.skip(n + 1int))
    }
}

proof fn lemma_semi_run(s: Seq<char>, n: nat)
    requires
        n <= s.len(),
        forall|j: int| 0 <= j < n ==> #[trigger] s[j] != ';',
        n == s.len() || s[n as int] == ';',
    ensures
        semi_run(s) == n,
    decreases n,
{
    if n > 0 {
        assert forall|j: int| 0 <= j < n - 1 implies #[trigger] s.drop_first()[j] != ';' by {
            assert(s.drop_first()[j] == s[j + 1]);
        }
        lemma_semi_run(s.drop_first(), (n - 1) as nat);
    }
}

/// The statements of an SQL file: its text cut at every `;`.
pub fn split_sql(content: &str) -> (res: Vec<String>)
    ensures
        res@.map_values(|p: String| p@) == split_semicolons(content@),
{
    let cs = str_chars(content);
    let len = cs.len();
    let ghost s = content@;
    let mut pieces: Vec<String> = Vec::new();
    let mut start: usize = 0;
    let mut i: usize = 0;
    assert(s.skip(0) =~= s);
    while i < len
        invariant
            start <= i <= len,
            len == s.len(),
            cs@ == s,
            s == content@,
            forall|j: int| start <= j < i ==> #[trigger] s[j] != ';',
            split_semicolons(s) == pieces@.map_values(|p: String| p@) + split_semicolons(s.skip(start as int)),
        decreases len - i,
    {
        if cs[i] == ';' {
            let piece = String::from_str(content.substring_char(start, i));
            proof {
                let t = s.skip(start as int);
                assert forall|j: int| 0 <= j < i - start implies #[trigger] t[j] != ';' by {
                    assert(t[j] == s[start + j]);
                }
                assert(t[i - start] == s[i as int]);
                lemma_semi_run(t, (i - start) as nat);
                assert(t.take(i - start) =~= piece@);
                assert(t.skip(i - start + 1) =~= s.skip(i + 1));
                assert(split_semicolons(t) == seq![piece@] + split_semicolons(s.skip(i + 1)));
            }
            let ghost old_pieces = pieces@;
            pieces.push(piece);
            proof {
                assert(pieces@.map_values(|p: String| p@) =~= old_pieces.map_values(|p: String| p@) + seq![piece@]);
            }
            start = i + 1;
        }
        i = i + 1;
    }
    let last = String::from_str(content.substring_char(start, len));
    proof {
        let t = s.skip(start as int);
        assert forall|j: int| 0 <= j < len - start implies #[trigger] t[j] != ';' by {
            assert(t[j] == s[start + j]);
        }
        lemma_semi_run(t, (len - start) as nat);
        assert(t =~= last@);
    }
    let ghost old_pieces = pieces@;
    pieces.push(last);
    proof {
        assert(pieces@.map_values(|p: String| p@) =~= old_pieces.map_values(|p: String| p@) + seq![last@]);
    }
    pieces
}

/// A directory is taken as the project root when it holds `Cargo.toml`,
/// `.git`, `sql` or `crates`.
pub fn is_project_root(has_cargo_toml: bool, has_git: bool, has_sql: bool, has_crates: bool) -> (res: bool)
    ensures
        res == (has_cargo_toml || has_git || has_sql || has_crates),
{
    has_cargo_toml || has_git || has_sql || has_crates
}

/// Where the SQL files are looked for: the directory that `PROJECT_ROOT`
/// names when it exists, else the first of the container roots that is a
/// project root, else the current directory.
#[verifier::loop_isolation(false)]
pub fn choose_project_root(env_root: Option<(String, bool)>, candidates: Vec<(String, bool)>, current: String) -> (res: String)
    ensures
        (env_root matches Some(e) && e.1) ==> res == env_root->Some_0.0,
        !(env_root matches Some(e) && e.1) ==> if exists|i: int| 0 <= i < candidates@.len() && candidates@[i].1 {
            exists|i: int| 0 <= i < candidates@.len() && candidates@[i].1 && res == candidates@[i].0
                && forall|j: int| 0 <= j < i ==> !(#[trigger] candidates@[j]).1
        } else {
            res == current
        },
{
    match env_root {
        Some((r, present)) => {
            if present {
                return r;
            }
        },
        None => {},
    }
    let mut candidates = candidates;
    let ghost all = candidates@;
    let mut i: usize = 0;
    while i < candidates.len()
        invariant
            i <= candidates@.len(),
            candidates@ == all,
            forall|j: int| 0 <= j < i ==> !(#[trigger] all[j]).1,
        decreases candidates@.len() - i,
    {
        if candidates[i].1 {
            let (p, _) = candidates.remove(i);
            assert(all[i as int].0 == p);
            return p;
        }
        i = i + 1;
    }
    current
}

} // verus!
