use vstd::prelude::*;
use crate::text::chars_of;
use crate::text::contains_chars;
use crate::text::contains_seq;
use crate::text::lower_of;
use crate::text::lowercase;

verus! {

/// A path in its canonical form: the text it prints as, and its components.
/// The component list is what containment compares, as `Path::starts_with` does.
pub struct ResolvedPath {
    pub text: String,
    pub components: Vec<String>,
}

impl ResolvedPath {
    pub open spec fn parts(&self) -> Seq<Seq<char>> {
        self.components@.map_values(|c: String| c@)
    }
}

/// The substrings that mark operating-system or credential-bearing locations.
pub open spec fn forbidden_paths() -> Seq<Seq<char>> {
    seq![
        "/System"@,
        "/Library"@,
        "/bin"@,
        "/sbin"@,
        "/usr/bin"@,
        "/usr/sbin"@,
        "C:\\Windows"@,
        "C:\\Program Files"@,
        "C:\\Program Files (x86)"@,
        ".ssh"@,
        ".env"@,
        ".aws"@,
        ".config"@,
    ]
}

/// The root-level directories that are never to be treated as ordinary targets.
pub open spec fn critical_dirs() -> Seq<Seq<char>> {
    seq![
        "/"@,
        "/System"@,
        "/Library"@,
        "/bin"@,
        "/sbin"@,
        "C:\\"@,
        "C:\\Windows"@,
        "C:\\Program Files"@,
    ]
}

/// The forbidden substrings, each lower-cased.
pub open spec fn forbidden_lowered() -> Seq<Seq<char>> {
    forbidden_paths().map_values(|f: Seq<char>| lower_of(f))
}

/// Some forbidden substring occurs in `path`.
pub open spec fn hits_forbidden(path: Seq<char>, forbidden: Seq<Seq<char>>) -> bool {
    exists|j: int| 0 <= j < forbidden.len() && contains_seq(path, #[trigger] forbidden[j])
}

/// `path` is `dir` or lies beneath it, component by component.
pub open spec fn is_within(path: Seq<Seq<char>>, dir: Seq<Seq<char>>) -> bool {
    dir.len() <= path.len() && path.subrange(0, dir.len() as int) == dir
}

/// Some allowed directory that could be resolved contains `path`.
pub open spec fn within_some(path: Seq<Seq<char>>, allowed: Seq<Option<Seq<Seq<char>>>>) -> bool {
    exists|j: int|
        0 <= j < allowed.len() && (#[trigger] allowed[j]) is Some && is_within(
            path,
            allowed[j]->0,
        )
}

/// The admission rule: no forbidden match, and inside some allowed directory.
pub open spec fn admits(
    lowered: Seq<char>,
    forbidden: Seq<Seq<char>>,
    path: Seq<Seq<char>>,
    allowed: Seq<Option<Seq<Seq<char>>>>,
) -> bool {
    !hits_forbidden(lowered, forbidden) && within_some(path, allowed)
}

/// The allowed directories as their resolved component lists.
pub open spec fn allowed_parts(allowed: Seq<Option<ResolvedPath>>) -> Seq<
    Option<Seq<Seq<char>>>,
> {
    allowed.map_values(
        |a: Option<ResolvedPath>|
            match a {
                Some(p) => Some(p.parts()),
                None => None,
            },
    )
}

/// A forbidden match denies the path, whatever directories are allowed.
pub proof fn law_forbidden_overrides(
    lowered: Seq<char>,
    forbidden: Seq<Seq<char>>,
    path: Seq<Seq<char>>,
    allowed: Seq<Option<Seq<Seq<char>>>>,
)
    requires
        hits_forbidden(lowered, forbidden),
    ensures
        !admits(lowered, forbidden, path, allowed),
{
}

/// A path that is an allowed directory, or lies beneath it, and matches nothing
/// forbidden is admitted by that directory alone.
pub proof fn law_nested_path_admitted(
    lowered: Seq<char>,
    forbidden: Seq<Seq<char>>,
    dir: Seq<Seq<char>>,
    rest: Seq<Seq<char>>,
)
    requires
        !hits_forbidden(lowered, forbidden),
    ensures
        admits(lowered, forbidden, dir + rest, seq![Some(dir)]),
{
    assert((dir + rest).subrange(0, dir.len() as int) =~= dir);
    let allowed = seq![Some(dir)];
    assert(allowed[0] is Some && is_within(dir + rest, allowed[0]->0));
}

/// Forbidden paths that should never be accessible.
pub fn get_forbidden_paths() -> (r: Vec<&'static str>)
    ensures
        r@.len() == forbidden_paths().len(),
        forall|i: int| 0 <= i < r@.len() ==> (#[trigger] r@[i])@ == forbidden_paths()[i],
{
    let mut v: Vec<&'static str> = Vec::new();
    v.push("/System");
    v.push("/Library");
    v.push("/bin");
    v.push("/sbin");
    v.push("/usr/bin");
    v.push("/usr/sbin");
    v.push("C:\\Windows");
    v.push("C:\\Program Files");
    v.push("C:\\Program Files (x86)");
    v.push(".ssh");
    v.push(".env");
    v.push(".aws");
    v.push(".config");
    v
}

/// The path text is exactly one of the critical root-level directories.
pub fn is_system_critical(path: &str) -> (r: bool)
    ensures
        r == critical_dirs().contains(path@),
{
    let mut dirs: Vec<&'static str> = Vec::new();
    dirs.push("/");
    dirs.push("/System");
    dirs.push("/Library");
    dirs.push("/bin");
    dirs.push("/sbin");
    dirs.push("C:\\");
    dirs.push("C:\\Windows");
    dirs.push("C:\\Program Files");
    assert(dirs@.map_values(|d: &str| d@) =~= critical_dirs());
    let owned = path.to_owned();
    let mut i: usize = 0;
    while i < dirs.len()
        invariant
            owned@ == path@,
            dirs@.map_values(|d: &str| d@) == critical_dirs(),
            i <= dirs@.len(),
            forall|j: int| 0 <= j < i ==> critical_dirs()[j] != path@,
        decreases dirs@.len() - i,
    {
        if owned == dirs[i].to_owned() {
            assert(critical_dirs()[i as int] == path@);
            return true;
        }
        i = i + 1;
    }
    assert(!critical_dirs().contains(path@));
    false
}

/// Some forbidden substring occurs in an already lower-cased path text.
pub fn matches_forbidden(lowered: &Vec<char>, forbidden: &Vec<Vec<char>>) -> (r: bool)
    ensures
        r == hits_forbidden(lowered@, forbidden@.map_values(|f: Vec<char>| f@)),
{
    let ghost fs = forbidden@.map_values(|f: Vec<char>| f@);
    let mut i: usize = 0;
    while i < forbidden.len()
        invariant
            fs == forbidden@.map_values(|f: Vec<char>| f@),
            i <= forbidden@.len(),
            forall|j: int| 0 <= j < i ==> !contains_seq(lowered@, #[trigger] fs[j]),
        decreases forbidden@.len() - i,
    {
        if contains_chars(lowered, &forbidden[i]) {
            assert(contains_seq(lowered@, fs[i as int]));
            return true;
        }
        i = i + 1;
    }
    false
}

/// `path` starts with every component of `dir`, in order.
pub fn path_within(path: &Vec<String>, dir: &Vec<String>) -> (r: bool)
    ensures
        r == is_within(
            path@.map_values(|c: String| c@),
            dir@.map_values(|c: String| c@),
        ),
{
    let ghost p = path@.map_values(|c: String| c@);
    let ghost d = dir@.map_values(|c: String| c@);
    if dir.len() > path.len() {
        return false;
    }
    let mut k: usize = 0;
    while k < dir.len()
        invariant
            p == path@.map_values(|c: String| c@),
            d == dir@.map_values(|c: String| c@),
            dir@.len() <= path@.len(),
            k <= dir@.len(),
            forall|m: int| 0 <= m < k ==> p[m] == d[m],
        decreases dir@.len() - k,
    {
        if path[k] != dir[k] {
            assert(p.subrange(0, d.len() as int)[k as int] != d[k as int]);
            return false;
        }
        k = k + 1;
    }
    assert(p.subrange(0, d.len() as int) =~= d);
    true
}

/// Some resolvable allowed directory contains `path`; unresolvable ones are skipped.
pub fn inside_allowed(path: &Vec<String>, allowed: &Vec<Option<ResolvedPath>>) -> (r: bool)
    ensures
        r == within_some(path@.map_values(|c: String| c@), allowed_parts(allowed@)),
{
    let ghost p = path@.map_values(|c: String| c@);
    let ghost a = allowed_parts(allowed@);
    let mut i: usize = 0;
    while i < allowed.len()
        invariant
            p == path@.map_values(|c: String| c@),
            a == allowed_parts(allowed@),
            i <= allowed@.len(),
            forall|j: int|
                0 <= j < i ==> !((#[trigger] a[j]) is Some && is_within(p, a[j]->0)),
        decreases allowed@.len() - i,
    {
        match &allowed[i] {
            Some(dir) => {
                if path_within(path, &dir.components) {
                    assert(a[i as int] is Some && is_within(p, a[i as int]->0));
                    return true;
                }
            },
            None => {},
        }
        i = i + 1;
    }
    false
}

/// The admission decision on values already lower-cased and resolved.
pub fn decide_access(
    lowered: &Vec<char>,
    forbidden: &Vec<Vec<char>>,
    path: &Vec<String>,
    allowed: &Vec<Option<ResolvedPath>>,
) -> (r: bool)
    ensures
        r == admits(
            lowered@,
            forbidden@.map_values(|f: Vec<char>| f@),
            path@.map_values(|c: String| c@),
            allowed_parts(allowed@),
        ),
{
    if matches_forbidden(lowered, forbidden) {
        return false;
    }
    inside_allowed(path, allowed)
}

/// Lower-cases each forbidden substring.
fn lowered_forbidden() -> (r: Vec<Vec<char>>)
    ensures
        r@.map_values(|f: Vec<char>| f@) == forbidden_lowered(),
{
    let raw = get_forbidden_paths();
    let mut out: Vec<Vec<char>> = Vec::new();
    let mut i: usize = 0;
    while i < raw.len()
        invariant
            raw@.len() == forbidden_paths().len(),
            forall|k: int| 0 <= k < raw@.len() ==> (#[trigger] raw@[k])@ == forbidden_paths()[k],
            i <= raw@.len(),
            out@.len() == i,
            forall|k: int| 0 <= k < i ==> (#[trigger] out@[k])@ == lower_of(forbidden_paths()[k]),
        decreases raw@.len() - i,
    {
        let l = lowercase(raw[i]);
        out.push(chars_of(l.as_str()));
        i = i + 1;
    }
    assert(out@.map_values(|f: Vec<char>| f@) =~= forbidden_lowered());
    out
}

/// Decides whether a path may be touched. `candidate` is the canonical form of the
/// path, or `None` where it could not be resolved; `allowed` holds the canonical
/// form of each allowed directory, in order, or `None` for one that could not be.
pub fn validate_path(candidate: &Option<ResolvedPath>, allowed: &Vec<Option<ResolvedPath>>) -> (r:
    bool)
    ensures
        r == match candidate {
            None => false,
            Some(p) => admits(
                lower_of(p.text@),
                forbidden_lowered(),
                p.parts(),
                allowed_parts(allowed@),
            ),
        },
        candidate is None ==> !r,
        candidate is Some && hits_forbidden(lower_of(candidate->0.text@), forbidden_lowered())
            ==> !r,
        candidate is Some && !hits_forbidden(lower_of(candidate->0.text@), forbidden_lowered())
            && within_some(candidate->0.parts(), allowed_parts(allowed@)) ==> r,
{
    match candidate {
        None => false,
        Some(p) => {
            let lowered = lowercase(p.text.as_str());
            let chars = chars_of(lowered.as_str());
            let forbidden = lowered_forbidden();
            decide_access(&chars, &forbidden, &p.components, allowed)
        },
    }
}

} // verus!
