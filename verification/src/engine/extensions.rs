//! Finding the directories of the debugger extensions.
use crate::text::{chars_of, optional_text, same_text, text2, text3, texts};
use vstd::prelude::*;
use vstd::string::*;

verus! {

broadcast use vstd::string::group_string_axioms;

/// Where the debuggers lie under the root of an SDK.
pub const DEBUGGERS: &'static str = "Debuggers\\x64";

/// Where the debuggers lie when nothing says otherwise.
pub const DEFAULT_ROOT: &'static str = "C:\\Program Files (x86)\\Windows Kits\\10\\Debuggers\\x64";

// ---- paths ----

/// Whether a path is a drive and nothing else.
pub open spec fn is_drive(path: Seq<char>) -> bool {
    &&& path.len() == 2
    &&& path[1] == ':'
    &&& 'a' as int <= path[0] as int <= 'z' as int || 'A' as int <= path[0] as int <= 'Z' as int
}

/// Whether a separator has to be put between a directory and what lies in it.
pub open spec fn needs_separator(dir: Seq<char>) -> bool {
    dir.len() > 0 && dir.last() != '\\' && dir.last() != '/' && !is_drive(dir)
}

/// The path of `leaf` in `dir`.
pub open spec fn path_text(dir: Seq<char>, leaf: Seq<char>) -> Seq<char> {
    if needs_separator(dir) {
        dir + "\\"@ + leaf
    } else {
        dir + leaf
    }
}

/// The path of `leaf` in `dir`. A separator at the end of `dir` is not doubled.
pub fn join_path(dir: &str, leaf: &str) -> (r: String)
    ensures
        r@ == path_text(dir@, leaf@),
{
    let chars: Vec<char> = chars_of(dir);
    let n: usize = chars.len();
    let drive: bool = n == 2 && chars[1] == ':' && (('a' <= chars[0] && chars[0] <= 'z') || ('A'
        <= chars[0] && chars[0] <= 'Z'));
    if n > 0 && chars[n - 1] != '\\' && chars[n - 1] != '/' && !drive {
        text3(dir, "\\", leaf)
    } else {
        text2(dir, leaf)
    }
}

// ---- what exists ----

/// Whether `is_there` may be asked about every path.
pub open spec fn total<F: Fn(&str) -> bool>(is_there: F) -> bool {
    forall|p: &str| call_requires(is_there, (p,))
}

/// Whether `is_there` answered `answer` about a path.
pub open spec fn told<F: Fn(&str) -> bool>(is_there: F, path: Seq<char>, answer: bool) -> bool {
    exists|p: &str| p@ == path && #[trigger] call_ensures(is_there, (p,), answer)
}

/// Whether `kept` are the paths that exist, as `is_there` said, in their order.
pub open spec fn kept_existing<F: Fn(&str) -> bool>(
    is_there: F,
    paths: Seq<Seq<char>>,
    kept: Seq<Seq<char>>,
) -> bool
    decreases paths.len(),
{
    if paths.len() == 0 {
        kept.len() == 0
    } else {
        ||| kept.len() > 0 && kept.last() == paths.last() && told(is_there, paths.last(), true)
            && kept_existing(is_there, paths.drop_last(), kept.drop_last())
        ||| told(is_there, paths.last(), false) && kept_existing(is_there, paths.drop_last(), kept)
    }
}

/// The directories in which the debugger extensions of a root may lie.
pub open spec fn extension_paths(root: Seq<char>) -> Seq<Seq<char>> {
    seq![path_text(root, "winext"@), path_text(root, "winxp"@), root]
}

/// The directories of the debugger extensions under a root: those that exist.
pub fn extension_dirs<F: Fn(&str) -> bool>(root: &str, is_there: F) -> (r: Vec<String>)
    requires
        total(is_there),
    ensures
        kept_existing(is_there, extension_paths(root@), texts(r@)),
{
    let mut paths: Vec<String> = Vec::new();
    paths.push(join_path(root, "winext"));
    paths.push(join_path(root, "winxp"));
    paths.push(root.to_owned());
    assert(texts(paths@) =~= extension_paths(root@));
    let mut out: Vec<String> = Vec::new();
    let mut i: usize = 0;
    assert(texts(paths@).take(0) =~= Seq::<Seq<char>>::empty());
    while i < paths.len()
        invariant
            total(is_there),
            i <= paths@.len(),
            kept_existing(is_there, texts(paths@).take(i as int), texts(out@)),
        decreases paths@.len() - i,
    {
        let ghost before = texts(out@);
        let ghost longer = texts(paths@).take(i + 1);
        assert(longer.drop_last() =~= texts(paths@).take(i as int));
        assert(longer.last() == paths@[i as int]@);
        let path: &str = paths[i].as_str();
        let there: bool = is_there(path);
        assert(told(is_there, longer.last(), there));
        if there {
            out.push(paths[i].clone());
            assert(texts(out@).drop_last() =~= before);
            assert(texts(out@).last() == longer.last());
        }
        i = i + 1;
    }
    assert(texts(paths@).take(i as int) =~= texts(paths@));
    out
}

// ---- the root of the debuggers ----

/// Whether `picked` is the first of the paths that exist, as `is_there` said.
pub open spec fn is_first_existing<F: Fn(&str) -> bool>(
    is_there: F,
    paths: Seq<Seq<char>>,
    picked: Option<Seq<char>>,
) -> bool {
    match picked {
        Some(path) => exists|i: int|
            0 <= i < paths.len() && path == #[trigger] paths[i] && told(is_there, path, true)
                && forall|j: int| 0 <= j < i ==> told(is_there, #[trigger] paths[j], false),
        None => forall|j: int| 0 <= j < paths.len() ==> told(is_there, #[trigger] paths[j], false),
    }
}

/// The first of the candidates that exists. Those behind it are not asked about.
pub fn select_existing_root<F: Fn(&str) -> bool>(candidates: Vec<String>, is_there: F) -> (r: Option<
    String,
>)
    requires
        total(is_there),
    ensures
        is_first_existing(is_there, texts(candidates@), optional_text(r)),
{
    let mut i: usize = 0;
    while i < candidates.len()
        invariant
            total(is_there),
            i <= candidates@.len(),
            forall|j: int|
                0 <= j < i ==> told(is_there, #[trigger] texts(candidates@)[j], false),
        decreases candidates@.len() - i,
    {
        let path: &str = candidates[i].as_str();
        let there: bool = is_there(path);
        assert(told(is_there, texts(candidates@)[i as int], there));
        if there {
            let picked: String = candidates[i].clone();
            assert(picked@ == texts(candidates@)[i as int]);
            return Some(picked);
        }
        i = i + 1;
    }
    None
}

/// The paths in their order, each only where it stands first.
pub open spec fn distinct(paths: Seq<Seq<char>>) -> Seq<Seq<char>>
    decreases paths.len(),
{
    if paths.len() == 0 {
        Seq::empty()
    } else {
        let before = distinct(paths.drop_last());
        if before.contains(paths.last()) {
            before
        } else {
            before.push(paths.last())
        }
    }
}

/// The root of the debuggers under the root of an SDK, where there is one.
pub open spec fn derived(root: Option<Seq<char>>) -> Seq<Seq<char>> {
    match root {
        Some(root) => seq![path_text(root, DEBUGGERS@)],
        None => Seq::empty(),
    }
}

/// The value of an environment variable; an empty one is as good as none.
pub open spec fn set_value(value: Option<Seq<char>>) -> Option<Seq<char>> {
    match value {
        Some(value) if value.len() > 0 => Some(value),
        _ => None,
    }
}

/// Where the root of the debuggers is looked for: under the root that the registry names, in its
/// own view and then in the 32-bit view, under the one that the environment names, and in the
/// default place.
pub open spec fn root_candidates(
    native: Option<Seq<char>>,
    wow: Option<Seq<char>>,
    env: Option<Seq<char>>,
) -> Seq<Seq<char>> {
    distinct(derived(native) + derived(wow) + derived(set_value(env)) + seq![DEFAULT_ROOT@])
}

fn push_distinct(paths: &mut Vec<String>, path: String)
    ensures
        texts(final(paths)@) == (if texts(old(paths)@).contains(path@) {
            texts(old(paths)@)
        } else {
            texts(old(paths)@).push(path@)
        }),
{
    let mut i: usize = 0;
    while i < paths.len()
        invariant
            i <= paths@.len(),
            paths@ == old(paths)@,
            forall|j: int| 0 <= j < i ==> #[trigger] texts(paths@)[j] != path@,
        decreases paths@.len() - i,
    {
        if same_text(paths[i].as_str(), path.as_str()) {
            assert(texts(paths@)[i as int] == path@);
            return ;
        }
        i = i + 1;
    }
    assert(!texts(old(paths)@).contains(path@));
    paths.push(path);
    assert(texts(paths@) =~= texts(old(paths)@).push(path@));
}

/// Where the root of the debuggers is looked for.
pub fn candidate_roots(native: Option<String>, wow: Option<String>, env: Option<String>) -> (r: Vec<
    String,
>)
    ensures
        texts(r@) == root_candidates(optional_text(native), optional_text(wow), optional_text(env)),
{
    let mut out: Vec<String> = Vec::new();
    let ghost mut all: Seq<Seq<char>> = Seq::empty();
    assert(texts(out@) =~= distinct(all));
    match native {
        Some(root) => {
            let path: String = join_path(root.as_str(), DEBUGGERS);
            proof {
                assert(all.push(path@).drop_last() =~= all);
                all = all.push(path@);
            }
            push_distinct(&mut out, path);
            assert(texts(out@) == distinct(all));
        },
        None => {},
    }
    assert(all =~= derived(optional_text(native)));
    match wow {
        Some(root) => {
            let path: String = join_path(root.as_str(), DEBUGGERS);
            proof {
                assert(all.push(path@).drop_last() =~= all);
                all = all.push(path@);
            }
            push_distinct(&mut out, path);
            assert(texts(out@) == distinct(all));
        },
        None => {},
    }
    assert(all =~= derived(optional_text(native)) + derived(optional_text(wow)));
    match env {
        Some(root) => {
            if !root.as_str().is_empty() {
                let path: String = join_path(root.as_str(), DEBUGGERS);
                proof {
                    assert(all.push(path@).drop_last() =~= all);
                    all = all.push(path@);
                }
                push_distinct(&mut out, path);
                assert(texts(out@) == distinct(all));
            }
        },
        None => {},
    }
    assert(all =~= derived(optional_text(native)) + derived(optional_text(wow)) + derived(
        set_value(optional_text(env)),
    ));
    let ghost named = all;
    proof {
        assert(all.push(DEFAULT_ROOT@).drop_last() =~= all);
        all = all.push(DEFAULT_ROOT@);
    }
    push_distinct(&mut out, DEFAULT_ROOT.to_owned());
    assert(texts(out@) == distinct(all));
    assert(all =~= named + seq![DEFAULT_ROOT@]);
    out
}

/// The root of the debuggers: the first of the candidates that exists. The registry is read in
/// both of its views.
pub fn discover_debuggers_root_with<R: Fn(bool) -> Option<String>, F: Fn(&str) -> bool>(
    read_registry: R,
    env: Option<String>,
    is_there: F,
) -> (r: Option<String>)
    requires
        call_requires(read_registry, (false,)),
        call_requires(read_registry, (true,)),
        total(is_there),
    ensures
        exists|native: Option<String>, wow: Option<String>|
            #![trigger call_ensures(read_registry, (false,), native), call_ensures(read_registry, (true,), wow)]
            {
                &&& call_ensures(read_registry, (false,), native)
                &&& call_ensures(read_registry, (true,), wow)
                &&& is_first_existing(
                    is_there,
                    root_candidates(optional_text(native), optional_text(wow), optional_text(env)),
                    optional_text(r),
                )
            },
{
    let native: Option<String> = read_registry(false);
    let wow: Option<String> = read_registry(true);
    let ghost (n, w) = (native, wow);
    let candidates: Vec<String> = candidate_roots(native, wow, env);
    let r = select_existing_root(candidates, is_there);
    assert(call_ensures(read_registry, (false,), n) && call_ensures(read_registry, (true,), w));
    r
}

/// No candidate is looked for twice, none is lost, and the first one comes first.
pub proof fn candidates_are_distinct(paths: Seq<Seq<char>>)
    ensures
        distinct(paths).no_duplicates(),
        forall|p: Seq<char>| #[trigger] distinct(paths).contains(p) <==> paths.contains(p),
        paths.len() > 0 ==> distinct(paths).len() > 0 && distinct(paths)[0] == paths[0],
    decreases paths.len(),
{
    if paths.len() > 0 {
        let rest = paths.drop_last();
        let last = paths.last();
        candidates_are_distinct(rest);
        assert(paths =~= rest.push(last));
        assert forall|p: Seq<char>| #[trigger] distinct(paths).contains(p) <==> paths.contains(
            p,
        ) by {
            assert(distinct(rest).contains(p) <==> rest.contains(p));
            if rest.contains(p) {
                let i = choose|i: int| 0 <= i < rest.len() && rest[i] == p;
                assert(paths[i] == p);
                let j = choose|j: int|
                    0 <= j < distinct(rest).len() && distinct(rest)[j] == p;
                assert(distinct(paths)[j] == p);
            }
            if p == last {
                assert(paths[paths.len() - 1] == p);
                if !distinct(rest).contains(last) {
                    assert(distinct(paths)[distinct(rest).len() as int] == p);
                } else {
                    assert(distinct(paths) == distinct(rest));
                }
            }
            if paths.contains(p) && p != last {
                let i = choose|i: int| 0 <= i < paths.len() && paths[i] == p;
                assert(rest[i] == p);
            }
            if distinct(paths).contains(p) && p != last {
                let j = choose|j: int|
                    0 <= j < distinct(paths).len() && distinct(paths)[j] == p;
                assert(distinct(rest)[j] == p);
            }
        }
        if rest.len() == 0 {
            assert(distinct(rest).len() == 0);
        }
    }
}

/// A path begins with its directory and ends with what lies in it, with at most one separator
/// between the two.
pub proof fn paths_lie_in_their_directory(dir: Seq<char>, leaf: Seq<char>)
    ensures
        path_text(dir, leaf).take(dir.len() as int) == dir,
        path_text(dir, leaf).skip(path_text(dir, leaf).len() - leaf.len()) == leaf,
        path_text(dir, leaf).len() <= dir.len() + 1 + leaf.len(),
        dir.len() > 0 && dir.last() == '\\' ==> path_text(dir, leaf).len() == dir.len()
            + leaf.len(),
{
    reveal_strlit("\\");
    assert(path_text(dir, leaf).take(dir.len() as int) =~= dir);
    assert(path_text(dir, leaf).skip(path_text(dir, leaf).len() - leaf.len()) =~= leaf);
}

/// The debuggers are looked for first where the registry says, in its own view, then in its 32-bit
/// view, then where the environment says, and in the default place in any case.
pub proof fn the_registry_goes_first(
    native: Option<Seq<char>>,
    wow: Option<Seq<char>>,
    env: Option<Seq<char>>,
)
    ensures
        root_candidates(native, wow, env).len() > 0,
        root_candidates(native, wow, env).contains(DEFAULT_ROOT@),
        native matches Some(root) ==> root_candidates(native, wow, env)[0] == path_text(
            root,
            DEBUGGERS@,
        ),
        native is None ==> (wow matches Some(root) ==> root_candidates(native, wow, env)[0]
            == path_text(root, DEBUGGERS@)),
        native is None && wow is None ==> (env matches Some(root) ==> root.len() > 0
            ==> root_candidates(native, wow, env)[0] == path_text(root, DEBUGGERS@)),
        native is None && wow is None && (env matches Some(root) ==> root.len() == 0)
            ==> root_candidates(native, wow, env)[0] == DEFAULT_ROOT@,
{
    let all = derived(native) + derived(wow) + derived(set_value(env)) + seq![DEFAULT_ROOT@];
    candidates_are_distinct(all);
    assert(all[all.len() - 1] == DEFAULT_ROOT@);
    assert(all.contains(DEFAULT_ROOT@));
    assert(distinct(all).contains(DEFAULT_ROOT@));
}

} // verus!
