//! Extension manifests, their admission, and the registry of live extensions.
//!
//! The registry is keyed by package name: each name appears at most once,
//! and re-running discovery never replaces or duplicates an entry.

use vstd::prelude::*;
use crate::text::{copy_opt, same_text};

verus! {

/// What an extension declares it may reach from inside its sandbox.
pub struct ManifestPermissions {
    /// Network hosts the sandbox may contact.
    pub hosts: Vec<String>,
    /// Local paths mapped into the sandbox: (local path, sandbox path).
    pub paths: Vec<(String, String)>,
}

/// The declarative description of one extension, read from its manifest file.
pub struct ExtensionManifest {
    pub moosync_extension: bool,
    pub display_name: String,
    /// Path of the module file; relative to the manifest's directory until
    /// resolved.
    pub extension_entry: String,
    pub author: Option<String>,
    /// The package name: the extension's only stable identity.
    pub name: String,
    pub version: String,
    pub icon: String,
    pub permissions: Option<ManifestPermissions>,
}

/// A manifest found during discovery, with whether its resolved entry file
/// exists on disk.
pub struct Candidate {
    pub manifest: ExtensionManifest,
    pub entry_exists: bool,
}

/// The file extension of sandboxed modules, with its dot.
pub open spec fn module_suffix() -> Seq<char> {
    seq!['.', 'w', 'a', 's', 'm']
}

/// A path names a module file when its last component has a non-empty stem
/// and the module extension.
pub open spec fn is_module_path(p: Seq<char>) -> bool {
    &&& p.len() >= 6
    &&& p.subrange(p.len() - 5, p.len() as int) == module_suffix()
    &&& p[p.len() - 6] != '/'
}

/// `entry` resolved against the directory `dir`: an absolute entry stands as
/// it is; otherwise it is joined to the directory with one separator.
pub open spec fn joined_path(dir: Seq<char>, entry: Seq<char>) -> Seq<char> {
    if entry.len() > 0 && entry[0] == '/' {
        entry
    } else if dir.len() == 0 {
        entry
    } else if dir.last() == '/' {
        dir + entry
    } else {
        dir.push('/') + entry
    }
}

/// Whether `p` names a sandboxed module file.
pub fn is_module_file(p: &str) -> (b: bool)
    ensures
        b == is_module_path(p@),
{
    let n = p.unicode_len();
    if n < 6 {
        return false;
    }
    let tail = p.substring_char(n - 5, n);
    let ok = same_text(tail, ".wasm");
    proof {
        reveal_strlit(".wasm");
        assert(".wasm"@ =~= module_suffix());
    }
    ok && p.get_char(n - 6) != '/'
}

/// Joins an entry path to the directory of its manifest.
pub fn join_path(dir: &str, entry: &str) -> (r: String)
    ensures
        r@ == joined_path(dir@, entry@),
{
    let en = entry.unicode_len();
    if en > 0 && entry.get_char(0) == '/' {
        return entry.to_string();
    }
    let dn = dir.unicode_len();
    if dn == 0 {
        return entry.to_string();
    }
    let mut r = dir.to_string();
    if dir.get_char(dn - 1) != '/' {
        r.append("/");
        proof {
            reveal_strlit("/");
        }
    }
    r.append(entry);
    r
}

impl ExtensionManifest {
    /// The manifest with its entry path resolved against `manifest_dir`.
    pub fn resolve_entry(self, manifest_dir: &str) -> (m: ExtensionManifest)
        ensures
            m.extension_entry@ == joined_path(manifest_dir@, self.extension_entry@),
            m.name == self.name,
            m.display_name == self.display_name,
            m.version == self.version,
            m.icon == self.icon,
            m.author == self.author,
            m.moosync_extension == self.moosync_extension,
            m.permissions == self.permissions,
    {
        let entry = join_path(manifest_dir, self.extension_entry.as_str());
        ExtensionManifest { extension_entry: entry, ..self }
    }
}

/// A live extension: its metadata and the handle of its running sandbox.
pub struct Extension<H> {
    pub package_name: String,
    pub name: String,
    pub icon: String,
    pub author: Option<String>,
    pub version: String,
    pub path: String,
    pub handle: H,
}

impl<H> Extension<H> {
    /// The extension a manifest describes, running in `handle`.
    pub fn from_manifest(m: ExtensionManifest, handle: H) -> (e: Extension<H>)
        ensures
            e.package_name == m.name,
            e.name == m.display_name,
            e.icon == m.icon,
            e.author == m.author,
            e.version == m.version,
            e.path == m.extension_entry,
            e.handle == handle,
    {
        Extension {
            package_name: m.name,
            name: m.display_name,
            icon: m.icon,
            author: m.author,
            version: m.version,
            path: m.extension_entry,
            handle,
        }
    }
}

/// The public description of an installed extension.
pub struct ExtensionDetail {
    pub name: String,
    pub package_name: String,
    pub desc: Option<String>,
    pub author: Option<String>,
    pub version: String,
    pub has_started: bool,
    pub entry: String,
    pub extension_path: String,
    pub extension_icon: Option<String>,
}

/// The description reported for an extension.
pub open spec fn detail_of<H>(e: Extension<H>, d: ExtensionDetail) -> bool {
    &&& d.name == e.name
    &&& d.package_name == e.package_name
    &&& d.desc is None
    &&& d.author == e.author
    &&& d.version == e.version
    &&& d.has_started
    &&& d.entry == e.path
    &&& d.extension_path == e.path
    &&& d.extension_icon == Some(e.icon)
}

impl ExtensionDetail {
    /// Describes a live extension.
    pub fn from_extension<H>(e: &Extension<H>) -> (d: ExtensionDetail)
        ensures
            detail_of(*e, d),
    {
        ExtensionDetail {
            name: e.name.clone(),
            package_name: e.package_name.clone(),
            desc: None,
            author: copy_opt(&e.author),
            version: e.version.clone(),
            has_started: true,
            entry: e.path.clone(),
            extension_path: e.path.clone(),
            extension_icon: Some(e.icon.clone()),
        }
    }
}

/// Whether some extension in `s` has package name `name`.
pub open spec fn has_name<H>(s: Seq<Extension<H>>, name: Seq<char>) -> bool {
    exists|i: int| 0 <= i < s.len() && (#[trigger] s[i]).package_name@ == name
}

/// Package names are unique.
pub open spec fn unique_names<H>(s: Seq<Extension<H>>) -> bool {
    forall|i: int, j: int|
        0 <= i < s.len() && 0 <= j < s.len() && i != j ==> (#[trigger] s[i]).package_name@ != (
        #[trigger] s[j]).package_name@
}

/// The positions a command addressed to `name` reaches: every extension for
/// the empty name, otherwise the one extension of that name, if any.
pub open spec fn targets_of<H>(s: Seq<Extension<H>>, name: Seq<char>) -> Set<int> {
    if name.len() == 0 {
        Set::new(|i: int| 0 <= i < s.len())
    } else {
        Set::new(|i: int| 0 <= i < s.len() && s[i].package_name@ == name)
    }
}

/// Whether a discovered candidate may be spawned, given the registered
/// extensions and the candidates already accepted in the same pass.
pub open spec fn admissible<H>(
    live: Seq<Extension<H>>,
    earlier: Seq<ExtensionManifest>,
    c: Candidate,
) -> bool {
    &&& !has_name(live, c.manifest.name@)
    &&& forall|k: int| 0 <= k < earlier.len() ==> (#[trigger] earlier[k]).name@ != c.manifest.name@
    &&& is_module_path(c.manifest.extension_entry@)
    &&& c.entry_exists
}

/// The live extensions, keyed by package name, in order of registration.
pub struct Registry<H> {
    entries: Vec<Extension<H>>,
}

impl<H> Registry<H> {
    /// The live extensions in order of registration.
    pub closed spec fn view(&self) -> Seq<Extension<H>> {
        self.entries@
    }

    /// Package names are unique.
    pub open spec fn wf(&self) -> bool {
        unique_names(self.view())
    }

    /// A registry with no extension.
    pub fn new() -> (r: Registry<H>)
        ensures
            r.wf(),
            r.view() == Seq::<Extension<H>>::empty(),
    {
        Registry { entries: Vec::new() }
    }

    /// Number of live extensions.
    pub fn len(&self) -> (n: usize)
        ensures
            n == self.view().len(),
    {
        self.entries.len()
    }

    /// The extension at a position.
    pub fn get(&self, i: usize) -> (e: &Extension<H>)
        requires
            i < self.view().len(),
        ensures
            *e == self.view()[i as int],
    {
        &self.entries[i]
    }

    /// The position of the extension named `name`, if one is registered.
    pub fn position(&self, name: &str) -> (r: Option<usize>)
        requires
            self.wf(),
        ensures
            match r {
                Some(i) => i < self.view().len() && self.view()[i as int].package_name@ == name@,
                None => !has_name(self.view(), name@),
            },
    {
        let mut i: usize = 0;
        while i < self.entries.len()
            invariant
                i <= self.entries@.len(),
                forall|j: int| 0 <= j < i ==> (#[trigger] self.entries@[j]).package_name@ != name@,
            decreases self.entries@.len() - i,
        {
            if same_text(self.entries[i].package_name.as_str(), name) {
                return Some(i);
            }
            i = i + 1;
        }
        None
    }

    /// Whether an extension named `name` is registered.
    pub fn contains(&self, name: &str) -> (b: bool)
        requires
            self.wf(),
        ensures
            b == has_name(self.view(), name@),
    {
        self.position(name).is_some()
    }

    /// Adds an extension unless its package name is already registered, in
    /// which case the registry is left exactly as it was. Returns whether it
    /// was added.
    pub fn register(&mut self, ext: Extension<H>) -> (added: bool)
        requires
            old(self).wf(),
        ensures
            final(self).wf(),
            added == !has_name(old(self).view(), ext.package_name@),
            added ==> final(self).view() == old(self).view().push(ext),
            !added ==> final(self).view() == old(self).view(),
    {
        if self.contains(ext.package_name.as_str()) {
            return false;
        }
        let ghost before = self.entries@;
        self.entries.push(ext);
        proof {
            assert forall|i: int, j: int|
                0 <= i < self.entries@.len() && 0 <= j < self.entries@.len() && i != j implies (
            #[trigger] self.entries@[i]).package_name@ != (#[trigger] self.entries@[j]).package_name@ by {
                if i < before.len() && j < before.len() {
                    assert(before[i] == self.entries@[i] && before[j] == self.entries@[j]);
                } else if i < before.len() {
                    assert(before[i] == self.entries@[i]);
                } else {
                    assert(before[j] == self.entries@[j]);
                }
            }
        }
        true
    }

    /// Drops the extension named `name` from the registry, keeping the order
    /// of the others; nothing changes when no such extension is registered.
    pub fn remove(&mut self, name: &str) -> (removed: Option<Extension<H>>)
        requires
            old(self).wf(),
        ensures
            final(self).wf(),
            !has_name(final(self).view(), name@),
            removed is None <==> !has_name(old(self).view(), name@),
            removed is None ==> final(self).view() == old(self).view(),
            removed matches Some(e) ==> exists|i: int|
                0 <= i < old(self).view().len() && old(self).view()[i] == e
                    && e.package_name@ == name@ && final(self).view() == old(self).view().remove(i),
    {
        match self.position(name) {
            None => None,
            Some(i) => {
                let ghost before = self.entries@;
                let e = self.entries.remove(i);
                proof {
                    assert forall|a: int| 0 <= a < self.entries@.len() implies (
                    #[trigger] self.entries@[a]) == (if a < i {
                        before[a]
                    } else {
                        before[a + 1]
                    }) by {}
                    assert forall|a: int, b: int|
                        0 <= a < self.entries@.len() && 0 <= b < self.entries@.len() && a
                            != b implies (#[trigger] self.entries@[a]).package_name@ != (
                    #[trigger] self.entries@[b]).package_name@ by {
                        let oa = if a < i { a } else { a + 1 };
                        let ob = if b < i { b } else { b + 1 };
                        assert(before[oa].package_name@ != before[ob].package_name@);
                    }
                    assert forall|a: int| 0 <= a < self.entries@.len() implies (
                    #[trigger] self.entries@[a]).package_name@ != name@ by {
                        let oa = if a < i { a } else { a + 1 };
                        assert(before[oa].package_name@ != before[i as int].package_name@);
                    }
                }
                Some(e)
            },
        }
    }

    /// The positions a command addressed to `name` reaches, in registry
    /// order: all of them for the empty name, otherwise the extension of that
    /// name, if any.
    pub fn targets(&self, name: &str) -> (r: Vec<usize>)
        requires
            self.wf(),
        ensures
            r@.len() <= self.view().len(),
            forall|k: int| 0 <= k < r@.len() ==> (#[trigger] r@[k]) < self.view().len(),
            forall|k: int, l: int| 0 <= k < l < r@.len() ==> r@[k] < r@[l],
            forall|i: int| targets_of(self.view(), name@).contains(i) <==> exists|k: int|
                0 <= k < r@.len() && r@[k] == i,
            name@.len() == 0 ==> r@.len() == self.view().len(),
            name@.len() > 0 ==> r@.len() == (if has_name(self.view(), name@) {
                1int
            } else {
                0int
            }),
    {
        let mut r: Vec<usize> = Vec::new();
        if name.unicode_len() == 0 {
            let mut i: usize = 0;
            while i < self.entries.len()
                invariant
                    i <= self.entries@.len(),
                    r@.len() == i,
                    forall|k: int| 0 <= k < r@.len() ==> r@[k] == k,
                decreases self.entries@.len() - i,
            {
                r.push(i);
                i = i + 1;
            }
            proof {
                assert forall|j: int| targets_of(self.view(), name@).contains(j) implies exists|k: int|
                    0 <= k < r@.len() && r@[k] == j by {
                    assert(r@[j] == j);
                }
            }
        } else {
            match self.position(name) {
                Some(i) => {
                    r.push(i);
                    proof {
                        assert forall|j: int| targets_of(self.view(), name@).contains(j) implies exists|
                            k: int,
                        | 0 <= k < r@.len() && r@[k] == j by {
                            if j != i {
                                assert(self.view()[j].package_name@ != self.view()[i as int].package_name@);
                            }
                            assert(r@[0] == i);
                        }
                        assert(has_name(self.view(), name@));
                    }
                },
                None => {
                    proof {
                        assert forall|j: int| targets_of(self.view(), name@).contains(j) implies false by {
                            assert(self.view()[j].package_name@ == name@);
                        }
                    }
                },
            }
        }
        r
    }

    /// The description of every live extension, in registry order.
    pub fn details(&self) -> (r: Vec<ExtensionDetail>)
        ensures
            r@.len() == self.view().len(),
            forall|i: int| 0 <= i < r@.len() ==> detail_of(self.view()[i], #[trigger] r@[i]),
    {
        let mut r: Vec<ExtensionDetail> = Vec::new();
        let mut i: usize = 0;
        while i < self.entries.len()
            invariant
                i <= self.entries@.len(),
                r@.len() == i,
                forall|k: int| 0 <= k < i ==> detail_of(self.entries@[k], #[trigger] r@[k]),
            decreases self.entries@.len() - i,
        {
            r.push(ExtensionDetail::from_extension(&self.entries[i]));
            i = i + 1;
        }
        r
    }

    /// Keeps, in order, the candidates that may be spawned: those whose
    /// package name is neither registered nor taken by an earlier accepted
    /// candidate, whose entry names a module file, and whose entry exists.
    pub fn select_manifests(&self, candidates: Vec<Candidate>) -> (r: Vec<ExtensionManifest>)
        requires
            self.wf(),
        ensures
            r@ == select_spec(self.view(), candidates@),
    {
        let ghost all = candidates@;
        let mut r: Vec<ExtensionManifest> = Vec::new();
        let mut rest = candidates;
        proof {
            assert(all.subrange(0, 0) =~= Seq::<Candidate>::empty());
        }
        while rest.len() > 0
            invariant
                self.wf(),
                rest@.len() <= all.len(),
                rest@ == all.subrange(all.len() - rest@.len(), all.len() as int),
                r@ == select_spec(self.view(), all.subrange(0, all.len() - rest@.len())),
            decreases rest@.len(),
        {
            let ghost done = all.len() - rest@.len();
            let c = rest.remove(0);
            proof {
                assert(c == all[done]);
                assert(all.subrange(0, done + 1).drop_last() =~= all.subrange(0, done));
                assert(rest@ =~= all.subrange(all.len() - rest@.len(), all.len() as int));
            }
            let fresh_live = !self.contains(c.manifest.name.as_str());
            let mut fresh_batch = true;
            let mut k: usize = 0;
            while k < r.len()
                invariant
                    k <= r@.len(),
                    fresh_batch == forall|j: int| 0 <= j < k ==> (#[trigger] r@[j]).name@ != c.manifest.name@,
                decreases r@.len() - k,
            {
                if same_text(r[k].name.as_str(), c.manifest.name.as_str()) {
                    fresh_batch = false;
                }
                k = k + 1;
            }
            if fresh_live && fresh_batch && c.entry_exists && is_module_file(
                c.manifest.extension_entry.as_str(),
            ) {
                r.push(c.manifest);
            }
        }
        proof {
            assert(all.subrange(0, all.len() as int) =~= all);
        }
        r
    }
}

/// The manifests a discovery pass accepts out of `cands`, in order.
pub open spec fn select_spec<H>(live: Seq<Extension<H>>, cands: Seq<Candidate>) -> Seq<
    ExtensionManifest,
>
    decreases cands.len(),
{
    if cands.len() == 0 {
        Seq::empty()
    } else {
        let earlier = select_spec(live, cands.drop_last());
        if admissible(live, earlier, cands.last()) {
            earlier.push(cands.last().manifest)
        } else {
            earlier
        }
    }
}

/// The extension that spawning manifest `m` into sandbox `h` registers.
pub open spec fn spawned<H>(m: ExtensionManifest, h: H) -> Extension<H> {
    Extension {
        package_name: m.name,
        name: m.display_name,
        icon: m.icon,
        author: m.author,
        version: m.version,
        path: m.extension_entry,
        handle: h,
    }
}

/// The registry after registering one extension: unchanged when its name is
/// taken, otherwise extended by it.
pub open spec fn register_spec<H>(live: Seq<Extension<H>>, e: Extension<H>) -> Seq<Extension<H>> {
    if has_name(live, e.package_name@) {
        live
    } else {
        live.push(e)
    }
}

/// The registry after spawning and registering each manifest of `ms` in
/// turn, the k-th in sandbox `hs[k]`.
pub open spec fn register_each<H>(
    live: Seq<Extension<H>>,
    ms: Seq<ExtensionManifest>,
    hs: Seq<H>,
) -> Seq<Extension<H>>
    decreases ms.len(),
{
    if ms.len() == 0 || hs.len() < ms.len() {
        live
    } else {
        register_spec(
            register_each(live, ms.drop_last(), hs.subrange(0, ms.len() - 1)),
            spawned(ms.last(), hs[ms.len() - 1]),
        )
    }
}

/// Every candidate is either accepted under its name, already registered,
/// or unusable.
proof fn lemma_select_covers<H>(live: Seq<Extension<H>>, cands: Seq<Candidate>)
    ensures
        forall|j: int|
            0 <= j < cands.len() ==> {
                let c = #[trigger] cands[j];
                ||| has_name(live, c.manifest.name@)
                ||| exists|k: int|
                    0 <= k < select_spec(live, cands).len() && (#[trigger] select_spec(
                        live,
                        cands,
                    )[k]).name@ == c.manifest.name@
                ||| !is_module_path(c.manifest.extension_entry@)
                ||| !c.entry_exists
            },
    decreases cands.len(),
{
    if cands.len() > 0 {
        let init = cands.drop_last();
        lemma_select_covers(live, init);
        let earlier = select_spec(live, init);
        let sel = select_spec(live, cands);
        assert forall|k: int| 0 <= k < earlier.len() implies sel[k] == earlier[k] by {}
        assert forall|j: int| 0 <= j < cands.len() implies {
            let c = #[trigger] cands[j];
            ||| has_name(live, c.manifest.name@)
            ||| exists|k: int| 0 <= k < sel.len() && (#[trigger] sel[k]).name@ == c.manifest.name@
            ||| !is_module_path(c.manifest.extension_entry@)
            ||| !c.entry_exists
        } by {
            let c = cands[j];
            if j < init.len() {
                assert(c == init[j]);
                if exists|k: int| 0 <= k < earlier.len() && (#[trigger] earlier[k]).name@ == c.manifest.name@ {
                    let k = choose|k: int| 0 <= k < earlier.len() && (#[trigger] earlier[k]).name@ == c.manifest.name@;
                    assert(sel[k] == earlier[k]);
                }
            } else {
                if admissible(live, earlier, c) {
                    assert(sel[earlier.len() as int] == c.manifest);
                } else if !has_name(live, c.manifest.name@) && is_module_path(c.manifest.extension_entry@) && c.entry_exists {
                    let k = choose|k: int| 0 <= k < earlier.len() && (#[trigger] earlier[k]).name@ == c.manifest.name@;
                    assert(sel[k] == earlier[k]);
                }
            }
        }
    }
}

/// Accepted manifests have distinct names, none of them registered.
proof fn lemma_select_fresh<H>(live: Seq<Extension<H>>, cands: Seq<Candidate>)
    ensures
        forall|k: int|
            0 <= k < select_spec(live, cands).len() ==> !has_name(
                live,
                (#[trigger] select_spec(live, cands)[k]).name@,
            ),
        forall|k: int, l: int|
            0 <= k < l < select_spec(live, cands).len() ==> (#[trigger] select_spec(live, cands)[k]).name@
                != (#[trigger] select_spec(live, cands)[l]).name@,
    decreases cands.len(),
{
    if cands.len() > 0 {
        let init = cands.drop_last();
        lemma_select_fresh(live, init);
        let earlier = select_spec(live, init);
        let sel = select_spec(live, cands);
        assert forall|k: int| 0 <= k < earlier.len() implies sel[k] == earlier[k] by {}
        if admissible(live, earlier, cands.last()) {
            assert forall|k: int, l: int| 0 <= k < l < sel.len() implies (#[trigger] sel[k]).name@
                != (#[trigger] sel[l]).name@ by {
                if l < earlier.len() {
                    assert(earlier[k].name@ != earlier[l].name@);
                } else {
                    assert(earlier[k].name@ != cands.last().manifest.name@);
                }
            }
            assert forall|k: int| 0 <= k < sel.len() implies !has_name(live, (#[trigger] sel[k]).name@) by {
                if k < earlier.len() {
                    assert(!has_name(live, earlier[k].name@));
                }
            }
        } else {
            assert(sel == earlier);
        }
    }
}

/// Registering distinct fresh manifests appends them all, in order.
proof fn lemma_register_fresh<H>(live: Seq<Extension<H>>, ms: Seq<ExtensionManifest>, hs: Seq<H>)
    requires
        hs.len() == ms.len(),
        forall|k: int| 0 <= k < ms.len() ==> !has_name(live, (#[trigger] ms[k]).name@),
        forall|k: int, l: int| 0 <= k < l < ms.len() ==> (#[trigger] ms[k]).name@ != (#[trigger] ms[l]).name@,
    ensures
        register_each(live, ms, hs) == live + Seq::new(ms.len(), |k: int| spawned(ms[k], hs[k])),
    decreases ms.len(),
{
    let added = Seq::new(ms.len(), |k: int| spawned(ms[k], hs[k]));
    if ms.len() == 0 {
        assert(live + added =~= live);
    } else {
        let n = ms.len() - 1;
        let init = ms.drop_last();
        let hinit = hs.subrange(0, n);
        lemma_register_fresh(live, init, hinit);
        let prev = register_each(live, init, hinit);
        let pre_added = Seq::new(init.len(), |k: int| spawned(init[k], hinit[k]));
        assert(prev == live + pre_added);
        let e = spawned(ms.last(), hs[n]);
        assert(!has_name(prev, e.package_name@)) by {
            if has_name(prev, e.package_name@) {
                let i = choose|i: int| 0 <= i < prev.len() && (#[trigger] prev[i]).package_name@ == e.package_name@;
                if i < live.len() {
                    assert(live[i] == prev[i]);
                    assert(!has_name(live, ms[n].name@));
                } else {
                    assert(prev[i] == spawned(init[i - live.len()], hinit[i - live.len()]));
                    assert(ms[i - live.len()].name@ != ms[n].name@);
                }
            }
        }
        assert(prev.push(e) =~= live + added);
    }
}

/// Discovery is idempotent and non-destructive: after the manifests one pass
/// accepts have been spawned and registered, every extension registered
/// before keeps its entry and position, no package name appears twice, and a
/// second pass over the same candidates accepts nothing.
pub proof fn lemma_discovery_idempotent<H>(
    live: Seq<Extension<H>>,
    cands: Seq<Candidate>,
    handles: Seq<H>,
)
    requires
        unique_names(live),
        handles.len() == select_spec(live, cands).len(),
    ensures
        ({
            let after = register_each(live, select_spec(live, cands), handles);
            &&& unique_names(after)
            &&& after.len() == live.len() + select_spec(live, cands).len()
            &&& forall|i: int| 0 <= i < live.len() ==> #[trigger] after[i] == live[i]
            &&& select_spec(after, cands) == Seq::<ExtensionManifest>::empty()
        }),
{
    let sel = select_spec(live, cands);
    lemma_select_fresh(live, cands);
    lemma_select_covers(live, cands);
    lemma_register_fresh(live, sel, handles);
    let after = register_each(live, sel, handles);
    let added = Seq::new(sel.len(), |k: int| spawned(sel[k], handles[k]));
    assert(after == live + added);
    assert forall|i: int, j: int|
        0 <= i < after.len() && 0 <= j < after.len() && i != j implies (#[trigger] after[i]).package_name@
        != (#[trigger] after[j]).package_name@ by {
        if i < live.len() && j < live.len() {
            assert(live[i] == after[i] && live[j] == after[j]);
        } else if i < live.len() {
            assert(after[j].package_name@ == sel[j - live.len()].name@);
            assert(!has_name(live, sel[j - live.len()].name@));
            assert(live[i] == after[i]);
        } else if j < live.len() {
            assert(after[i].package_name@ == sel[i - live.len()].name@);
            assert(!has_name(live, sel[i - live.len()].name@));
            assert(live[j] == after[j]);
        } else {
            let a = i - live.len();
            let b = j - live.len();
            if a < b {
                assert(sel[a].name@ != sel[b].name@);
            } else {
                assert(sel[b].name@ != sel[a].name@);
            }
        }
    }
    lemma_nothing_new(live, sel, after, cands);
}

/// When every candidate is registered by name in `after` or unusable, a pass
/// over them accepts nothing.
proof fn lemma_nothing_new<H>(
    live: Seq<Extension<H>>,
    sel: Seq<ExtensionManifest>,
    after: Seq<Extension<H>>,
    cands: Seq<Candidate>,
)
    requires
        forall|i: int| 0 <= i < live.len() ==> #[trigger] after[i] == live[i],
        after.len() == live.len() + sel.len(),
        forall|k: int|
            0 <= k < sel.len() ==> (#[trigger] after[live.len() + k]).package_name@ == sel[k].name@,
        forall|j: int|
            0 <= j < cands.len() ==> {
                let c = #[trigger] cands[j];
                ||| has_name(live, c.manifest.name@)
                ||| exists|k: int| 0 <= k < sel.len() && (#[trigger] sel[k]).name@ == c.manifest.name@
                ||| !is_module_path(c.manifest.extension_entry@)
                ||| !c.entry_exists
            },
    ensures
        select_spec(after, cands) == Seq::<ExtensionManifest>::empty(),
    decreases cands.len(),
{
    if cands.len() > 0 {
        let init = cands.drop_last();
        assert forall|j: int| 0 <= j < init.len() implies {
            let c = #[trigger] init[j];
            ||| has_name(live, c.manifest.name@)
            ||| exists|k: int| 0 <= k < sel.len() && (#[trigger] sel[k]).name@ == c.manifest.name@
            ||| !is_module_path(c.manifest.extension_entry@)
            ||| !c.entry_exists
        } by {
            assert(init[j] == cands[j]);
        }
        lemma_nothing_new(live, sel, after, init);
        let c = cands.last();
        assert(c == cands[cands.len() - 1]);
        if has_name(live, c.manifest.name@) {
            let i = choose|i: int| 0 <= i < live.len() && (#[trigger] live[i]).package_name@ == c.manifest.name@;
            assert(after[i] == live[i]);
        } else if exists|k: int| 0 <= k < sel.len() && (#[trigger] sel[k]).name@ == c.manifest.name@ {
            let k = choose|k: int| 0 <= k < sel.len() && (#[trigger] sel[k]).name@ == c.manifest.name@;
            assert(after[live.len() + k].package_name@ == c.manifest.name@);
        }
    }
}

} // verus!
