//! Environment composition.
//!
//! A process environment is a list of key/value pairs with unique keys.
//! The composers below inject tool-specific search-path entries at the
//! front (package manager) or the back (service wrapper) of `PATH`,
//! de-duplicated by substring or case-insensitive entry match, set the
//! tool home variables with their documented fallbacks, and apply
//! caller-supplied overrides last, so the caller wins on conflicts.

use vstd::prelude::*;

use crate::text::contains_at;
use crate::text::contains_seq;
use crate::text::contains_str;
use crate::text::lower_spec;
use crate::text::lower_str;
use crate::text::push_char;
use crate::text::str_eq;

verus! {

broadcast use vstd::string::group_string_axioms;

/// The value bound to `k`, the last binding winning.
pub open spec fn lookup(pairs: Seq<(Seq<char>, Seq<char>)>, k: Seq<char>) -> Option<Seq<char>>
    decreases pairs.len(),
{
    if pairs.len() == 0 {
        None
    } else if pairs.last().0 == k {
        Some(pairs.last().1)
    } else {
        lookup(pairs.drop_last(), k)
    }
}

proof fn lemma_lookup_update(
    pairs: Seq<(Seq<char>, Seq<char>)>,
    i: int,
    v: Seq<char>,
    k2: Seq<char>,
)
    requires
        0 <= i < pairs.len(),
        forall|j: int| 0 <= j < pairs.len() && j != i ==> (#[trigger] pairs[j]).0 != pairs[i].0,
    ensures
        lookup(pairs.update(i, (pairs[i].0, v)), k2) == if k2 == pairs[i].0 {
            Some(v)
        } else {
            lookup(pairs, k2)
        },
    decreases pairs.len(),
{
    let pu = pairs.update(i, (pairs[i].0, v));
    if i == pairs.len() - 1 {
        assert(pu.drop_last() =~= pairs.drop_last());
        if k2 != pairs[i].0 {
            assert(lookup(pu, k2) == lookup(pairs.drop_last(), k2));
        }
    } else {
        assert(pu.last() == pairs.last());
        assert(pu.drop_last() =~= pairs.drop_last().update(i, (pairs[i].0, v)));
        lemma_lookup_update(pairs.drop_last(), i, v, k2);
    }
}

/// A process environment: key/value pairs with unique keys.
pub struct EnvMap {
    pairs: Vec<(String, String)>,
}

impl EnvMap {
    /// The pairs as sequences of characters.
    pub closed spec fn pairs_view(self) -> Seq<(Seq<char>, Seq<char>)> {
        Seq::new(self.pairs@.len(), |i: int| (self.pairs@[i].0@, self.pairs@[i].1@))
    }

    /// Keys are unique, so a lookup has one answer.
    pub open spec fn wf(self) -> bool {
        forall|i: int, j: int|
            0 <= i < j < self.pairs_view().len() ==> (#[trigger] self.pairs_view()[i]).0 != (
            #[trigger] self.pairs_view()[j]).0
    }

    /// The value bound to `k`, if any.
    pub open spec fn spec_get(self, k: Seq<char>) -> Option<Seq<char>> {
        lookup(self.pairs_view(), k)
    }

    pub fn new() -> (r: EnvMap)
        ensures
            r.wf(),
            forall|k: Seq<char>| r.spec_get(k) is None,
            r.pairs_view().len() == 0,
    {
        let r = EnvMap { pairs: Vec::new() };
        proof {
            assert(r.pairs_view() =~= Seq::<(Seq<char>, Seq<char>)>::empty());
        }
        r
    }

    pub fn get(&self, key: &str) -> (r: Option<&String>)
        ensures
            match r {
                Some(v) => self.spec_get(key@) == Some(v@),
                None => self.spec_get(key@) is None,
            },
    {
        let mut i: usize = self.pairs.len();
        proof {
            assert(self.pairs_view().take(self.pairs@.len() as int) =~= self.pairs_view());
        }
        while i > 0
            invariant
                0 <= i <= self.pairs@.len(),
                self.pairs_view().len() == self.pairs@.len(),
                lookup(self.pairs_view(), key@) == lookup(
                    self.pairs_view().take(i as int),
                    key@,
                ),
            decreases i,
        {
            proof {
                assert(self.pairs_view().take(i as int).last() == self.pairs_view()[i - 1]);
                assert(self.pairs_view().take(i as int).drop_last() =~= self.pairs_view().take(
                    i - 1,
                ));
            }
            if str_eq(self.pairs[i - 1].0.as_str(), key) {
                return Some(&self.pairs[i - 1].1);
            }
            i = i - 1;
        }
        proof {
            assert(self.pairs_view().take(0) =~= Seq::<(Seq<char>, Seq<char>)>::empty());
        }
        None
    }

    pub fn contains_key(&self, key: &str) -> (r: bool)
        ensures
            r == (self.spec_get(key@) is Some),
    {
        match self.get(key) {
            Some(_) => true,
            None => false,
        }
    }

    /// Binds `key` to `value`, replacing any earlier binding.
    pub fn set(&mut self, key: &str, value: String)
        requires
            old(self).wf(),
        ensures
            final(self).wf(),
            final(self).spec_get(key@) == Some(value@),
            forall|k2: Seq<char>|
                k2 != key@ ==> #[trigger] final(self).spec_get(k2) == old(self).spec_get(k2),
    {
        let n = self.pairs.len();
        let mut i: usize = 0;
        while i < n
            invariant
                0 <= i <= n,
                n == self.pairs@.len(),
                self.wf(),
                self.pairs_view() == old(self).pairs_view(),
                forall|j: int| 0 <= j < i ==> (#[trigger] self.pairs_view()[j]).0 != key@,
            decreases n - i,
        {
            if str_eq(self.pairs[i].0.as_str(), key) {
                let ghost pv = self.pairs_view();
                self.pairs[i].1 = value;
                proof {
                    assert(self.pairs_view() =~= pv.update(i as int, (pv[i as int].0, value@)));
                    assert forall|j: int| 0 <= j < pv.len() && j != i implies (
                    #[trigger] pv[j]).0 != pv[i as int].0 by {
                        if j < i {
                            assert(pv[j].0 != key@);
                        }
                    }
                    lemma_lookup_update(pv, i as int, value@, key@);
                    assert forall|k2: Seq<char>| k2 != key@ implies #[trigger] self.spec_get(k2)
                        == lookup(pv, k2) by {
                        lemma_lookup_update(pv, i as int, value@, k2);
                    }
                }
                return ;
            }
            i = i + 1;
        }
        let ghost pv = self.pairs_view();
        let owned_key = key.to_owned();
        self.pairs.push((owned_key, value));
        proof {
            assert(self.pairs_view() =~= pv.push((key@, value@)));
            assert(self.pairs_view().drop_last() =~= pv);
            assert forall|k2: Seq<char>| k2 != key@ implies #[trigger] self.spec_get(k2) == lookup(
                pv,
                k2,
            ) by {}
        }
    }

    /// The underlying pairs, for handing the environment to a spawner.
    pub fn entries(&self) -> (r: &Vec<(String, String)>)
        ensures
            r@.len() == self.pairs_view().len(),
            forall|i: int|
                0 <= i < r@.len() ==> ((#[trigger] r@[i]).0@, r@[i].1@) == self.pairs_view()[i],
    {
        &self.pairs
    }
}

/// The package manager root: drive-derived, then profile-derived, then a
/// fixed fallback.
pub open spec fn scoop_root_spec(homedrive: Option<Seq<char>>, userprofile: Option<Seq<char>>) -> Seq<
    char,
> {
    if homedrive is Some {
        homedrive->Some_0 + "\\aidex\\scoop"@
    } else if userprofile is Some {
        userprofile->Some_0 + "\\aidex\\scoop"@
    } else {
        "C:\\aidex\\scoop"@
    }
}

/// The global package manager root.
pub open spec fn scoop_global_spec(programdata: Option<Seq<char>>) -> Seq<char> {
    if programdata is Some {
        programdata->Some_0 + "\\aidex\\scoop"@
    } else {
        "C:\\aidex\\scoop"@
    }
}

/// `PATH` with the package manager's shim and app directories put in
/// front, each skipped when a matching entry is already present.
pub open spec fn scoop_path_spec(
    path: Seq<char>,
    userprofile: Option<Seq<char>>,
    programdata: Option<Seq<char>>,
) -> Seq<char> {
    let s1 = if userprofile is Some && !contains_seq(path, "scoop\\shims"@) {
        userprofile->Some_0 + "\\scoop\\shims"@ + seq![';'] + path
    } else {
        path
    };
    let s2 = if userprofile is Some && !contains_seq(s1, "scoop\\apps"@) {
        userprofile->Some_0 + "\\scoop\\apps\\scoop\\current\\bin"@ + seq![';'] + s1
    } else {
        s1
    };
    if programdata is Some && !contains_seq(s2, "ProgramData\\scoop"@) {
        programdata->Some_0 + "\\scoop\\shims"@ + seq![';'] + s2
    } else {
        s2
    }
}

/// Prepends `entry` and a separator to `path`.
fn prepend_entry(prefix: &String, suffix: &str, path: &String) -> (r: String)
    ensures
        r@ == prefix@ + suffix@ + seq![';'] + path@,
{
    let mut t = prefix.clone();
    t.append(suffix);
    push_char(&mut t, ';');
    t.append(path.as_str());
    t
}

/// Joins `base` and `suffix`.
fn concat_str(base: &String, suffix: &str) -> (r: String)
    ensures
        r@ == base@ + suffix@,
{
    let mut t = base.clone();
    t.append(suffix);
    t
}

fn cloned(v: Option<&String>) -> (r: Option<String>)
    ensures
        match r {
            Some(s) => v matches Some(x) && x@ == s@,
            None => v is None,
        },
{
    match v {
        Some(s) => Some(s.clone()),
        None => None,
    }
}

/// Rewrites the environment for a package manager invocation: shim and
/// app directories are pushed onto the front of `PATH` unless a matching
/// entry is already there, and the `SCOOP` / `SCOOP_GLOBAL` roots are set
/// from the drive, profile or program-data variables with their fixed
/// fallback.
pub fn enhance_scoop_env(env: &mut EnvMap)
    requires
        old(env).wf(),
    ensures
        final(env).wf(),
        final(env).spec_get("SCOOP"@) == Some(
            scoop_root_spec(old(env).spec_get("HOMEDRIVE"@), old(env).spec_get("USERPROFILE"@)),
        ),
        final(env).spec_get("SCOOP_GLOBAL"@) == Some(
            scoop_global_spec(old(env).spec_get("ProgramData"@)),
        ),
        match old(env).spec_get("PATH"@) {
            Some(p) => final(env).spec_get("PATH"@) == Some(
                scoop_path_spec(
                    p,
                    old(env).spec_get("USERPROFILE"@),
                    old(env).spec_get("ProgramData"@),
                ),
            ),
            None => final(env).spec_get("PATH"@) is None,
        },
        forall|k: Seq<char>|
            k != "PATH"@ && k != "SCOOP"@ && k != "SCOOP_GLOBAL"@ ==> #[trigger] final(env).spec_get(
                k,
            ) == old(env).spec_get(k),
{
    proof {
        reveal_strlit("PATH");
        reveal_strlit("SCOOP");
        reveal_strlit("SCOOP_GLOBAL");
        reveal_strlit("USERPROFILE");
        reveal_strlit("ProgramData");
        reveal_strlit("HOMEDRIVE");
        assert("PATH"@.len() == 4);
        assert("SCOOP"@.len() == 5);
        assert("SCOOP_GLOBAL"@.len() == 12);
        assert("USERPROFILE"@.len() == 11);
        assert("ProgramData"@.len() == 11);
        assert("USERPROFILE"@[0] == 'U');
        assert("ProgramData"@[0] == 'P');
        assert("PATH"@ != "SCOOP"@ && "PATH"@ != "SCOOP_GLOBAL"@ && "SCOOP"@ != "SCOOP_GLOBAL"@);
        assert("USERPROFILE"@ != "ProgramData"@);
    }
    let userprofile = cloned(env.get("USERPROFILE"));
    let programdata = cloned(env.get("ProgramData"));
    let homedrive = cloned(env.get("HOMEDRIVE"));
    let path = cloned(env.get("PATH"));

    if let Some(p) = path {
        let mut cur = p;
        if let Some(up) = &userprofile {
            if !contains_str(cur.as_str(), "scoop\\shims") {
                cur = prepend_entry(up, "\\scoop\\shims", &cur);
            }
            if !contains_str(cur.as_str(), "scoop\\apps") {
                cur = prepend_entry(up, "\\scoop\\apps\\scoop\\current\\bin", &cur);
            }
        }
        if let Some(pd) = &programdata {
            if !contains_str(cur.as_str(), "ProgramData\\scoop") {
                cur = prepend_entry(pd, "\\scoop\\shims", &cur);
            }
        }
        env.set("PATH", cur);
    }

    let root = if let Some(hd) = &homedrive {
        concat_str(hd, "\\aidex\\scoop")
    } else if let Some(up) = &userprofile {
        concat_str(up, "\\aidex\\scoop")
    } else {
        String::from_str("C:\\aidex\\scoop")
    };
    env.set("SCOOP", root);

    let global = if let Some(pd) = &programdata {
        concat_str(pd, "\\aidex\\scoop")
    } else {
        String::from_str("C:\\aidex\\scoop")
    };
    env.set("SCOOP_GLOBAL", global);
}

/// `entry` already stands in the `';'`-separated `path`, compared without
/// regard to ASCII case.  Padding both sides with the separator makes the
/// entry check a substring check, because entries hold no separator.
pub open spec fn has_entry_ci(path: Seq<char>, entry: Seq<char>) -> bool {
    contains_seq(seq![';'] + lower_spec(path) + seq![';'], seq![';'] + lower_spec(entry) + seq![';'])
}

/// Appends `entry` unless a case-insensitive match is already present.
pub open spec fn add_entry_ci(path: Seq<char>, entry: Seq<char>) -> Seq<char> {
    if has_entry_ci(path, entry) {
        path
    } else {
        path + seq![';'] + entry
    }
}

/// `PATH` with the well-known system directories appended when absent.
pub open spec fn winsw_path_spec(path: Seq<char>) -> Seq<char> {
    add_entry_ci(
        add_entry_ci(
            add_entry_ci(
                add_entry_ci(path, "C:\\Windows\\System32"@),
                "C:\\Windows"@,
            ),
            "C:\\Windows\\System32\\Wbem"@,
        ),
        "C:\\Windows\\System32\\WindowsPowerShell\\v1.0"@,
    )
}

fn pad_lower(s: &str) -> (r: String)
    ensures
        r@ == seq![';'] + lower_spec(s@) + seq![';'],
{
    let mut t = String::new();
    push_char(&mut t, ';');
    let low = lower_str(s);
    t.append(low.as_str());
    push_char(&mut t, ';');
    proof {
        assert(Seq::<char>::empty().push(';') =~= seq![';']);
        assert((seq![';'] + lower_spec(s@)).push(';') =~= seq![';'] + lower_spec(s@) + seq![';']);
    }
    t
}

fn has_entry_ci_exec(path: &String, entry: &str) -> (r: bool)
    ensures
        r == has_entry_ci(path@, entry@),
{
    let hay = pad_lower(path.as_str());
    let needle = pad_lower(entry);
    contains_str(hay.as_str(), needle.as_str())
}

fn add_entry_ci_exec(path: String, entry: &str) -> (r: String)
    ensures
        r@ == add_entry_ci(path@, entry@),
{
    if has_entry_ci_exec(&path, entry) {
        path
    } else {
        let mut t = path;
        push_char(&mut t, ';');
        t.append(entry);
        t
    }
}

/// Rewrites the environment for a service wrapper invocation: the
/// well-known system directories are appended to `PATH` when missing, a
/// `SystemRoot` default is supplied, and the caller's overrides are
/// applied last, winning on every conflict.
pub fn enhance_winsw_env(env: &mut EnvMap, custom: Option<&EnvMap>)
    requires
        old(env).wf(),
    ensures
        final(env).wf(),
        forall|k: Seq<char>|
            #![trigger final(env).spec_get(k)]
            final(env).spec_get(k) == {
                let overridden = match custom {
                    Some(c) => c.spec_get(k),
                    None => None::<Seq<char>>,
                };
                if overridden is Some {
                    overridden
                } else {
                    let base = if k == "PATH"@ {
                        match old(env).spec_get("PATH"@) {
                            Some(p) => Some(winsw_path_spec(p)),
                            None => None,
                        }
                    } else if k == "SystemRoot"@ {
                        match old(env).spec_get("SystemRoot"@) {
                            Some(v) => Some(v),
                            None => Some("C:\\Windows"@),
                        }
                    } else {
                        old(env).spec_get(k)
                    };
                    base
                }
            },
{
    proof {
        reveal_strlit("PATH");
        reveal_strlit("SystemRoot");
        assert("PATH"@.len() == 4);
        assert("SystemRoot"@.len() == 10);
        assert("PATH"@ != "SystemRoot"@);
    }
    let path = cloned(env.get("PATH"));
    if let Some(p) = path {
        let mut cur = p;
        cur = add_entry_ci_exec(cur, "C:\\Windows\\System32");
        cur = add_entry_ci_exec(cur, "C:\\Windows");
        cur = add_entry_ci_exec(cur, "C:\\Windows\\System32\\Wbem");
        cur = add_entry_ci_exec(cur, "C:\\Windows\\System32\\WindowsPowerShell\\v1.0");
        env.set("PATH", cur);
    }
    if !env.contains_key("SystemRoot") {
        env.set("SystemRoot", String::from_str("C:\\Windows"));
    }
    proof {
        assert(forall|k: Seq<char>|
            #![trigger env.spec_get(k)]
            env.spec_get(k) == pre_merge(*old(env), k));
    }
    if let Some(c) = custom {
        let n = c.pairs.len();
        let mut i: usize = 0;
        proof {
            assert(c.pairs_view().take(0) =~= Seq::<(Seq<char>, Seq<char>)>::empty());
        }
        while i < n
            invariant
                0 <= i <= n,
                n == c.pairs@.len(),
                c.pairs_view().len() == n,
                env.wf(),
                forall|k: Seq<char>|
                    #![trigger env.spec_get(k)]
                    env.spec_get(k) == {
                        let so_far = lookup(c.pairs_view().take(i as int), k);
                        if so_far is Some {
                            so_far
                        } else {
                            pre_merge(*old(env), k)
                        }
                    },
            decreases n - i,
        {
            let key = c.pairs[i].0.clone();
            let value = c.pairs[i].1.clone();
            env.set(key.as_str(), value);
            proof {
                assert(c.pairs_view().take(i + 1).last() == c.pairs_view()[i as int]);
                assert(c.pairs_view().take(i + 1).drop_last() =~= c.pairs_view().take(i as int));
            }
            i = i + 1;
        }
        proof {
            assert(c.pairs_view().take(n as int) =~= c.pairs_view());
        }
    }
}

/// The environment after the system-path and `SystemRoot` steps, before
/// the caller's overrides.
pub open spec fn pre_merge(base: EnvMap, k: Seq<char>) -> Option<Seq<char>> {
    if k == "PATH"@ {
        match base.spec_get("PATH"@) {
            Some(p) => Some(winsw_path_spec(p)),
            None => None,
        }
    } else if k == "SystemRoot"@ {
        match base.spec_get("SystemRoot"@) {
            Some(v) => Some(v),
            None => Some("C:\\Windows"@),
        }
    } else {
        base.spec_get(k)
    }
}


/// Law: adding an entry makes it present, compared without regard to
/// case.
proof fn lemma_added_entry_present(p: Seq<char>, x: Seq<char>)
    ensures
        has_entry_ci(add_entry_ci(p, x), x),
{
    if !has_entry_ci(p, x) {
        let added = p + seq![';'] + x;
        crate::text::lemma_lower_concat(p + seq![';'], x);
        crate::text::lemma_lower_concat(p, seq![';']);
        assert(lower_spec(seq![';']) =~= seq![';']);
        let padded = seq![';'] + lower_spec(added) + seq![';'];
        let needle = seq![';'] + lower_spec(x) + seq![';'];
        assert(padded.subrange(1 + p.len() as int, padded.len() as int) =~= needle);
        assert(contains_at(padded, needle, 1 + p.len() as int));
    }
}

/// Law: an entry already present stays present when another is added.
proof fn lemma_entry_preserved(p: Seq<char>, x: Seq<char>, y: Seq<char>)
    requires
        has_entry_ci(p, x),
    ensures
        has_entry_ci(add_entry_ci(p, y), x),
{
    if !has_entry_ci(p, y) {
        let added = p + seq![';'] + y;
        crate::text::lemma_lower_concat(p + seq![';'], y);
        crate::text::lemma_lower_concat(p, seq![';']);
        assert(lower_spec(seq![';']) =~= seq![';']);
        let padded_p = seq![';'] + lower_spec(p) + seq![';'];
        let padded = seq![';'] + lower_spec(added) + seq![';'];
        assert(padded =~= padded_p + (lower_spec(y) + seq![';']));
        crate::text::lemma_contains_concat_right(
            padded_p,
            lower_spec(y) + seq![';'],
            seq![';'] + lower_spec(x) + seq![';'],
        );
    }
}

/// Law: composing the service wrapper `PATH` twice is the same as
/// composing it once; every system entry is de-duplicated.
pub proof fn lemma_winsw_composition_idempotent(path: Seq<char>)
    ensures
        winsw_path_spec(winsw_path_spec(path)) == winsw_path_spec(path),
{
    let e1 = "C:\\Windows\\System32"@;
    let e2 = "C:\\Windows"@;
    let e3 = "C:\\Windows\\System32\\Wbem"@;
    let e4 = "C:\\Windows\\System32\\WindowsPowerShell\\v1.0"@;
    let p1 = add_entry_ci(path, e1);
    let p2 = add_entry_ci(p1, e2);
    let p3 = add_entry_ci(p2, e3);
    let p4 = add_entry_ci(p3, e4);
    lemma_added_entry_present(path, e1);
    lemma_entry_preserved(p1, e1, e2);
    lemma_added_entry_present(p1, e2);
    lemma_entry_preserved(p2, e1, e3);
    lemma_entry_preserved(p2, e2, e3);
    lemma_added_entry_present(p2, e3);
    lemma_entry_preserved(p3, e1, e4);
    lemma_entry_preserved(p3, e2, e4);
    lemma_entry_preserved(p3, e3, e4);
    lemma_added_entry_present(p3, e4);
}

/// Law: composing the package manager `PATH` twice is the same as
/// composing it once, as long as the program-data directory carries its
/// conventional name, which is what the de-duplication needle matches.
/// For another name (say `C:\\PD`) the global shim entry is prepended on
/// every composition.
pub proof fn lemma_scoop_composition_idempotent(
    path: Seq<char>,
    up: Option<Seq<char>>,
    pd: Option<Seq<char>>,
)
    requires
        pd is Some ==> crate::text::ends_with(pd->Some_0, "ProgramData"@),
    ensures
        scoop_path_spec(scoop_path_spec(path, up, pd), up, pd) == scoop_path_spec(path, up, pd),
{
    reveal_strlit("scoop\\shims");
    reveal_strlit("\\scoop\\shims");
    reveal_strlit("scoop\\apps");
    reveal_strlit("\\scoop\\apps\\scoop\\current\\bin");
    reveal_strlit("ProgramData\\scoop");
    reveal_strlit("ProgramData");
    let shims = "scoop\\shims"@;
    let apps = "scoop\\apps"@;
    let pdn = "ProgramData\\scoop"@;
    let s1 = if up is Some && !contains_seq(path, shims) {
        up->Some_0 + "\\scoop\\shims"@ + seq![';'] + path
    } else {
        path
    };
    let s2 = if up is Some && !contains_seq(s1, apps) {
        up->Some_0 + "\\scoop\\apps\\scoop\\current\\bin"@ + seq![';'] + s1
    } else {
        s1
    };
    let r = if pd is Some && !contains_seq(s2, pdn) {
        pd->Some_0 + "\\scoop\\shims"@ + seq![';'] + s2
    } else {
        s2
    };
    assert(r == scoop_path_spec(path, up, pd));
    if up is Some {
        let u = up->Some_0;
        if !contains_seq(path, shims) {
            assert(("\\scoop\\shims"@).subrange(1, 12) =~= shims);
            assert(contains_at("\\scoop\\shims"@, shims, 1));
            crate::text::lemma_contains_concat_left(u, "\\scoop\\shims"@, shims);
            crate::text::lemma_contains_concat_right(
                u + "\\scoop\\shims"@,
                seq![';'] + path,
                shims,
            );
            assert(s1 =~= (u + "\\scoop\\shims"@) + (seq![';'] + path));
        }
        assert(contains_seq(s1, shims));
        if !contains_seq(s1, apps) {
            crate::text::lemma_contains_concat_left(seq![';'], s1, shims);
            crate::text::lemma_contains_concat_left(
                u + "\\scoop\\apps\\scoop\\current\\bin"@,
                seq![';'] + s1,
                shims,
            );
            assert(s2 =~= (u + "\\scoop\\apps\\scoop\\current\\bin"@) + (seq![';']
                + s1));
            assert(("\\scoop\\apps\\scoop\\current\\bin"@).subrange(1, 11) =~= apps);
            assert(contains_at("\\scoop\\apps\\scoop\\current\\bin"@, apps, 1));
            crate::text::lemma_contains_concat_left(
                u,
                "\\scoop\\apps\\scoop\\current\\bin"@,
                apps,
            );
            crate::text::lemma_contains_concat_right(
                u + "\\scoop\\apps\\scoop\\current\\bin"@,
                seq![';'] + s1,
                apps,
            );
        }
        assert(contains_seq(s2, shims));
        assert(contains_seq(s2, apps));
        if pd is Some && !contains_seq(s2, pdn) {
            assert(r =~= (pd->Some_0 + "\\scoop\\shims"@) + (seq![';'] + s2));
            crate::text::lemma_contains_concat_left(seq![';'], s2, shims);
            crate::text::lemma_contains_concat_left(seq![';'], s2, apps);
            crate::text::lemma_contains_concat_left(
                pd->Some_0 + "\\scoop\\shims"@,
                seq![';'] + s2,
                shims,
            );
            crate::text::lemma_contains_concat_left(
                pd->Some_0 + "\\scoop\\shims"@,
                seq![';'] + s2,
                apps,
            );
        }
        assert(contains_seq(r, shims));
        assert(contains_seq(r, apps));
    }
    if pd is Some {
        let d = pd->Some_0;
        if !contains_seq(s2, pdn) {
            let entry = d + "\\scoop\\shims"@;
            assert forall|k: int| 0 <= k < 17 implies entry.subrange(
                d.len() - 11,
                d.len() + 6 as int,
            )[k] == pdn[k] by {
                if k < 11 {
                    assert(d.subrange(d.len() - 11, d.len() as int)[k] == "ProgramData"@[k]);
                } else {
                    assert(entry[d.len() - 11 + k] == "\\scoop\\shims"@[k - 11]);
                }
            }
            assert(entry.subrange(d.len() - 11, d.len() + 6 as int) =~= pdn);
            assert(contains_at(entry, pdn, d.len() - 11));
            crate::text::lemma_contains_concat_right(entry, seq![';'] + s2, pdn);
            assert(r =~= entry + (seq![';'] + s2));
        } else {
            assert(contains_seq(s2, pdn));
        }
        assert(contains_seq(r, pdn));
    }
}

} // verus!
