//! The loaded fonts, by family and size: a family is named after its font file, and
//! holds one font for each size that was loaded.
use vstd::prelude::*;

use crate::toml_model::string_eq_str;

verus! {

/// No two pairs share a key.
pub open spec fn unique_keys<K, V>(s: Seq<(K, V)>) -> bool {
    forall|i: int, j: int| 0 <= i < j < s.len() ==> s[i].0 != s[j].0
}

/// The map that a list of pairs with distinct keys stands for.
pub open spec fn pairs_map<K, V>(s: Seq<(K, V)>) -> Map<K, V> {
    Map::new(
        |k: K| exists|i: int| 0 <= i < s.len() && s[i].0 == k,
        |k: K| s[choose|i: int| 0 <= i < s.len() && s[i].0 == k].1,
    )
}

proof fn lemma_pairs_map_at<K, V>(s: Seq<(K, V)>, i: int)
    requires
        unique_keys(s),
        0 <= i < s.len(),
    ensures
        pairs_map(s).contains_key(s[i].0),
        pairs_map(s)[s[i].0] == s[i].1,
{
    let k = s[i].0;
    assert(exists|j: int| 0 <= j < s.len() && s[j].0 == k);
    let c = choose|j: int| 0 <= j < s.len() && s[j].0 == k;
    if c != i {
        if c < i {
            assert(s[c].0 != s[i].0);
        } else {
            assert(s[i].0 != s[c].0);
        }
    }
}

proof fn lemma_pairs_map_push<K, V>(s: Seq<(K, V)>, k: K, v: V)
    requires
        unique_keys(s),
        !pairs_map(s).contains_key(k),
    ensures
        unique_keys(s.push((k, v))),
        pairs_map(s.push((k, v))) =~= pairs_map(s).insert(k, v),
{
    let t = s.push((k, v));
    assert forall|i: int| 0 <= i < s.len() implies s[i].0 != k by {
        if s[i].0 == k {
            assert(pairs_map(s).contains_key(k));
        }
    }
    assert(unique_keys(t));
    lemma_pairs_map_at(t, s.len() as int);
    assert forall|x: K| #[trigger] pairs_map(t).contains_key(x) <==> pairs_map(s).insert(k, v).contains_key(x) by {
        if pairs_map(s).contains_key(x) {
            let i = choose|i: int| 0 <= i < s.len() && s[i].0 == x;
            assert(t[i].0 == x);
        }
        if pairs_map(t).contains_key(x) && x != k {
            let i = choose|i: int| 0 <= i < t.len() && t[i].0 == x;
            assert(i < s.len());
            assert(s[i].0 == x);
        }
    }
    assert forall|x: K| pairs_map(t).contains_key(x) && x != k implies pairs_map(t)[x] == pairs_map(s)[x] by {
        let i = choose|i: int| 0 <= i < t.len() && t[i].0 == x;
        assert(i < s.len());
        lemma_pairs_map_at(t, i);
        lemma_pairs_map_at(s, i);
    }
}

proof fn lemma_pairs_map_update<K, V>(s: Seq<(K, V)>, j: int, v: V)
    requires
        unique_keys(s),
        0 <= j < s.len(),
    ensures
        unique_keys(s.update(j, (s[j].0, v))),
        pairs_map(s.update(j, (s[j].0, v))) =~= pairs_map(s).insert(s[j].0, v),
{
    let k = s[j].0;
    let t = s.update(j, (k, v));
    assert(unique_keys(t)) by {
        assert forall|a: int, b: int| 0 <= a < b < t.len() implies t[a].0 != t[b].0 by {
            assert(t[a].0 == s[a].0 && t[b].0 == s[b].0);
        }
    }
    lemma_pairs_map_at(t, j);
    assert forall|x: K| #[trigger] pairs_map(t).contains_key(x) <==> pairs_map(s).insert(k, v).contains_key(x) by {
        if pairs_map(s).contains_key(x) {
            let i = choose|i: int| 0 <= i < s.len() && s[i].0 == x;
            assert(t[i].0 == x);
        }
        if pairs_map(t).contains_key(x) {
            let i = choose|i: int| 0 <= i < t.len() && t[i].0 == x;
            assert(s[i].0 == x);
        }
    }
    assert forall|x: K| pairs_map(t).contains_key(x) && x != k implies pairs_map(t)[x] == pairs_map(s)[x] by {
        let i = choose|i: int| 0 <= i < t.len() && t[i].0 == x;
        assert(i != j);
        lemma_pairs_map_at(t, i);
        lemma_pairs_map_at(s, i);
    }
}

proof fn lemma_pairs_map_remove<K, V>(s: Seq<(K, V)>, j: int)
    requires
        unique_keys(s),
        0 <= j < s.len(),
    ensures
        unique_keys(s.remove(j)),
        pairs_map(s.remove(j)) =~= pairs_map(s).remove(s[j].0),
{
    let k = s[j].0;
    let t = s.remove(j);
    assert forall|i: int| 0 <= i < t.len() implies #[trigger] t[i] == s[if i < j { i } else { i + 1 }] by {}
    assert(unique_keys(t)) by {
        assert forall|a: int, b: int| 0 <= a < b < t.len() implies t[a].0 != t[b].0 by {
            let a2 = if a < j { a } else { a + 1 };
            let b2 = if b < j { b } else { b + 1 };
            assert(t[a] == s[a2] && t[b] == s[b2]);
        }
    }
    assert forall|x: K| #[trigger] pairs_map(t).contains_key(x) <==> pairs_map(s).remove(k).contains_key(x) by {
        if pairs_map(t).contains_key(x) {
            let i = choose|i: int| 0 <= i < t.len() && t[i].0 == x;
            let i2 = if i < j { i } else { i + 1 };
            assert(t[i] == s[i2]);
            assert(s[i2].0 == x);
            if x == k {
                assert(i2 != j);
                if i2 < j {
                    assert(s[i2].0 != s[j].0);
                } else {
                    assert(s[j].0 != s[i2].0);
                }
            }
        }
        if pairs_map(s).contains_key(x) && x != k {
            let i = choose|i: int| 0 <= i < s.len() && s[i].0 == x;
            assert(i != j);
            let i1 = if i < j { i } else { i - 1 };
            assert(t[i1] == s[i]);
        }
    }
    assert forall|x: K| pairs_map(t).contains_key(x) implies pairs_map(t)[x] == pairs_map(s)[x] by {
        let i = choose|i: int| 0 <= i < t.len() && t[i].0 == x;
        let i2 = if i < j { i } else { i + 1 };
        assert(t[i] == s[i2]);
        lemma_pairs_map_at(t, i);
        lemma_pairs_map_at(s, i2);
    }
}

/// The fonts of one family, by size.
pub struct FontFamily<F> {
    name: String,
    sizes: Vec<(u32, F)>,
}

/// The loaded fonts, by family name and size. `F` is the loaded font.
pub struct FontMgr<F> {
    families: Vec<FontFamily<F>>,
}

/// The family name that a font file gives: its name without `.ttf`.
pub open spec fn family_of_file(file_name: Seq<char>) -> Seq<char> {
    file_name.subrange(0, file_name.len() - 4)
}

/// A font file name ends in `.ttf`.
pub open spec fn is_ttf_name(file_name: Seq<char>) -> bool {
    file_name.len() >= 4 && file_name.subrange(file_name.len() - 4, file_name.len() as int) == ".ttf"@
}

/// A font file's family is its name with the `.ttf` ending taken off: putting the
/// ending back gives the file name.
pub proof fn lemma_family_of_file_strips_ttf(file_name: Seq<char>)
    requires
        is_ttf_name(file_name),
    ensures
        family_of_file(file_name) + ".ttf"@ == file_name,
        family_of_file(file_name).len() + 4 == file_name.len(),
{
    assert(family_of_file(file_name) + ".ttf"@ =~= file_name);
}

impl<F> FontMgr<F> {
    spec fn entries(&self) -> Seq<(Seq<char>, Map<u32, F>)> {
        self.families@.map_values(|f: FontFamily<F>| (f.name@, pairs_map(f.sizes@)))
    }

    /// The fonts, by family and size.
    pub closed spec fn fonts(&self) -> Map<Seq<char>, Map<u32, F>> {
        pairs_map(self.entries())
    }

    /// No family twice, and no size twice in a family.
    pub closed spec fn wf(&self) -> bool {
        &&& unique_keys(self.entries())
        &&& forall|i: int| 0 <= i < self.families@.len() ==> unique_keys(#[trigger] self.families@[i].sizes@)
    }

    /// No font loaded.
    pub fn new() -> (m: Self)
        ensures
            m.wf(),
            m.fonts() == Map::<Seq<char>, Map<u32, F>>::empty(),
    {
        let m = FontMgr { families: Vec::new() };
        assert(m.fonts() =~= Map::<Seq<char>, Map<u32, F>>::empty());
        m
    }

    fn find_family(&self, name: &str) -> (r: Option<usize>)
        ensures
            match r {
                Some(i) => i < self.families@.len() && self.families@[i as int].name@ == name@,
                None => forall|i: int| 0 <= i < self.families@.len() ==> self.families@[i].name@ != name@,
            },
    {
        let mut i: usize = 0;
        while i < self.families.len()
            invariant
                i <= self.families@.len(),
                forall|j: int| 0 <= j < i ==> self.families@[j].name@ != name@,
            decreases self.families@.len() - i,
        {
            if string_eq_str(&self.families[i].name, name) {
                return Some(i);
            }
            i = i + 1;
        }
        None
    }

    proof fn lemma_family_lookup(&self, name: Seq<char>, r: Option<usize>)
        requires
            self.wf(),
            match r {
                Some(i) => i < self.families@.len() && self.families@[i as int].name@ == name,
                None => forall|i: int| 0 <= i < self.families@.len() ==> self.families@[i].name@ != name,
            },
        ensures
            r is Some <==> self.fonts().contains_key(name),
            r matches Some(i) ==> self.fonts()[name] == pairs_map(self.families@[i as int].sizes@),
    {
        let e = self.entries();
        match r {
            Some(i) => {
                assert(e[i as int].0 == name);
                lemma_pairs_map_at(e, i as int);
            },
            None => {
                if self.fonts().contains_key(name) {
                    let k = choose|k: int| 0 <= k < e.len() && e[k].0 == name;
                    assert(self.families@[k].name@ == name);
                }
            },
        }
    }

    fn find_size(sizes: &Vec<(u32, F)>, size: u32) -> (r: Option<usize>)
        ensures
            match r {
                Some(j) => j < sizes@.len() && sizes@[j as int].0 == size,
                None => forall|j: int| 0 <= j < sizes@.len() ==> sizes@[j].0 != size,
            },
    {
        let mut j: usize = 0;
        while j < sizes.len()
            invariant
                j <= sizes@.len(),
                forall|k: int| 0 <= k < j ==> sizes@[k].0 != size,
            decreases sizes@.len() - j,
        {
            if sizes[j].0 == size {
                return Some(j);
            }
            j = j + 1;
        }
        None
    }

    /// Whether fonts of the family `name` are loaded.
    pub fn has_family(&self, name: &str) -> (b: bool)
        requires
            self.wf(),
        ensures
            b == self.fonts().contains_key(name@),
    {
        let r = self.find_family(name);
        proof {
            self.lemma_family_lookup(name@, r);
        }
        r.is_some()
    }

    /// The font of family `name` in `size`, if loaded.
    pub fn get_font(&self, name: &str, size: u32) -> (r: Option<&F>)
        requires
            self.wf(),
        ensures
            match r {
                Some(f) => self.fonts().contains_key(name@) && self.fonts()[name@].contains_key(size)
                    && self.fonts()[name@][size] == *f,
                None => !(self.fonts().contains_key(name@) && self.fonts()[name@].contains_key(size)),
            },
    {
        let r = self.find_family(name);
        proof {
            self.lemma_family_lookup(name@, r);
        }
        match r {
            None => None,
            Some(i) => {
                let sizes = &self.families[i].sizes;
                let s = Self::find_size(sizes, size);
                proof {
                    assert(unique_keys(self.families@[i as int].sizes@));
                }
                match s {
                    Some(j) => {
                        proof {
                            lemma_pairs_map_at(sizes@, j as int);
                        }
                        Some(&sizes[j].1)
                    },
                    None => {
                        proof {
                            if pairs_map(sizes@).contains_key(size) {
                                let k = choose|k: int| 0 <= k < sizes@.len() && sizes@[k].0 == size;
                                assert(sizes@[k].0 != size);
                            }
                        }
                        None
                    },
                }
            },
        }
    }

    /// The sizes loaded for family `name`, each once; none when the family is not
    /// loaded.
    pub fn get_family_sizes(&self, name: &str) -> (r: Vec<u32>)
        requires
            self.wf(),
        ensures
            r@.no_duplicates(),
            self.fonts().contains_key(name@) ==> r@.to_set() == self.fonts()[name@].dom(),
            !self.fonts().contains_key(name@) ==> r@.len() == 0,
    {
        let f = self.find_family(name);
        proof {
            self.lemma_family_lookup(name@, f);
        }
        let mut out: Vec<u32> = Vec::new();
        match f {
            None => {},
            Some(i) => {
                let sizes = &self.families[i].sizes;
                proof {
                    assert(unique_keys(sizes@));
                }
                let mut j: usize = 0;
                while j < sizes.len()
                    invariant
                        j <= sizes@.len(),
                        unique_keys(sizes@),
                        out@.len() == j,
                        forall|k: int| 0 <= k < j ==> out@[k] == #[trigger] sizes@[k].0,
                    decreases sizes@.len() - j,
                {
                    out.push(sizes[j].0);
                    j = j + 1;
                }
                proof {
                    assert(out@.no_duplicates()) by {
                        assert forall|a: int, b: int| 0 <= a < out@.len() && 0 <= b < out@.len() && a != b implies out@[a] != out@[b] by {
                            assert(out@[a] == sizes@[a].0 && out@[b] == sizes@[b].0);
                            if a < b {
                                assert(sizes@[a].0 != sizes@[b].0);
                            } else {
                                assert(sizes@[b].0 != sizes@[a].0);
                            }
                        }
                    }
                    assert forall|x: u32| out@.to_set().contains(x) <==> pairs_map(sizes@).dom().contains(x) by {
                        if out@.contains(x) {
                            let k = choose|k: int| 0 <= k < out@.len() && out@[k] == x;
                            assert(sizes@[k].0 == x);
                        }
                        if pairs_map(sizes@).contains_key(x) {
                            let k = choose|k: int| 0 <= k < sizes@.len() && sizes@[k].0 == x;
                            assert(out@[k] == x);
                        }
                    }
                    assert(out@.to_set() =~= pairs_map(sizes@).dom());
                }
            },
        }
        out
    }

    /// The names of the loaded families, each once.
    pub fn get_family_names(&self) -> (r: Vec<String>)
        requires
            self.wf(),
        ensures
            r@.map_values(|s: String| s@).no_duplicates(),
            r@.map_values(|s: String| s@).to_set() == self.fonts().dom(),
    {
        let ghost e = self.entries();
        let mut out: Vec<String> = Vec::new();
        let mut i: usize = 0;
        while i < self.families.len()
            invariant
                i <= self.families@.len(),
                e == self.entries(),
                out@.len() == i,
                forall|k: int| 0 <= k < i ==> (#[trigger] out@[k])@ == e[k].0,
            decreases self.families@.len() - i,
        {
            out.push(self.families[i].name.clone());
            i = i + 1;
        }
        proof {
            let names = out@.map_values(|s: String| s@);
            assert forall|k: int| 0 <= k < names.len() implies #[trigger] names[k] == e[k].0 by {
                assert(out@[k]@ == e[k].0);
            }
            assert(names.no_duplicates()) by {
                assert forall|a: int, b: int| 0 <= a < names.len() && 0 <= b < names.len() && a != b implies names[a] != names[b] by {
                    assert(names[a] == e[a].0 && names[b] == e[b].0);
                    if a < b {
                        assert(e[a].0 != e[b].0);
                    } else {
                        assert(e[b].0 != e[a].0);
                    }
                }
            }
            assert forall|x: Seq<char>| names.to_set().contains(x) <==> self.fonts().dom().contains(x) by {
                if names.contains(x) {
                    let k = choose|k: int| 0 <= k < names.len() && names[k] == x;
                    assert(e[k].0 == x);
                }
                if self.fonts().contains_key(x) {
                    let k = choose|k: int| 0 <= k < e.len() && e[k].0 == x;
                    assert(names[k] == x);
                }
            }
            assert(names.to_set() =~= self.fonts().dom());
        }
        out
    }

    /// Drops every font.
    pub fn clear_fonts(&mut self)
        ensures
            final(self).wf(),
            final(self).fonts() == Map::<Seq<char>, Map<u32, F>>::empty(),
    {
        self.families = Vec::new();
        assert(self.fonts() =~= Map::<Seq<char>, Map<u32, F>>::empty());
    }

    /// Drops the family `name` and its fonts.
    pub fn remove_family(&mut self, name: &str)
        requires
            old(self).wf(),
        ensures
            final(self).wf(),
            final(self).fonts() == old(self).fonts().remove(name@),
    {
        let r = self.find_family(name);
        proof {
            self.lemma_family_lookup(name@, r);
        }
        match r {
            None => {
                assert(self.fonts() =~= old(self).fonts().remove(name@));
            },
            Some(i) => {
                let ghost e = self.entries();
                let ghost fams = self.families@;
                self.families.remove(i);
                proof {
                    lemma_pairs_map_remove(e, i as int);
                    assert(self.entries() =~= e.remove(i as int));
                    assert forall|k: int| 0 <= k < self.families@.len() implies unique_keys(
                        #[trigger] self.families@[k].sizes@,
                    ) by {
                        if k < i {
                            assert(self.families@[k] == fams[k]);
                        } else {
                            assert(self.families@[k] == fams[k + 1]);
                        }
                    }
                }
            },
        }
    }

    /// Drops the font of family `name` in `size`; the family stays, even without
    /// fonts.
    pub fn remove_font(&mut self, name: &str, size: u32)
        requires
            old(self).wf(),
        ensures
            final(self).wf(),
            old(self).fonts().contains_key(name@) ==> final(self).fonts() == old(self).fonts().insert(
                name@,
                old(self).fonts()[name@].remove(size),
            ),
            !old(self).fonts().contains_key(name@) ==> final(self).fonts() == old(self).fonts(),
    {
        let r = self.find_family(name);
        proof {
            self.lemma_family_lookup(name@, r);
        }
        match r {
            None => {},
            Some(i) => {
                let ghost e = self.entries();
                let ghost fams = self.families@;
                let mut fam = self.families.remove(i);
                proof {
                    assert(fam == fams[i as int]);
                    assert(unique_keys(fam.sizes@));
                }
                let ghost old_sizes = fam.sizes@;
                match Self::find_size(&fam.sizes, size) {
                    Some(j) => {
                        fam.sizes.remove(j);
                        proof {
                            lemma_pairs_map_remove(old_sizes, j as int);
                        }
                    },
                    None => {
                        proof {
                            assert(pairs_map(fam.sizes@) =~= pairs_map(old_sizes).remove(size)) by {
                                if pairs_map(old_sizes).contains_key(size) {
                                    let k = choose|k: int| 0 <= k < old_sizes.len() && old_sizes[k].0 == size;
                                    assert(old_sizes[k].0 != size);
                                }
                            }
                        }
                    },
                }
                let ghost new_inner = pairs_map(fam.sizes@);
                self.families.insert(i, fam);
                proof {
                    assert(self.families@ =~= fams.update(i as int, fam));
                    assert(self.entries() =~= e.update(i as int, (e[i as int].0, new_inner)));
                    lemma_pairs_map_update(e, i as int, new_inner);
                    assert forall|k: int| 0 <= k < self.families@.len() implies unique_keys(
                        #[trigger] self.families@[k].sizes@,
                    ) by {
                        if k != i {
                            assert(self.families@[k] == fams[k]);
                        }
                    }
                }
            },
        }
    }

    /// Adds `font`, loaded from the file `file_name` in `size`, to the family that
    /// the file names (see [`family_of_file`]), replacing a font of that size.
    pub fn load_local_font(&mut self, file_name: &str, size: u32, font: F)
        requires
            old(self).wf(),
            is_ttf_name(file_name@),
        ensures
            final(self).wf(),
            ({
                let name = family_of_file(file_name@);
                let before = if old(self).fonts().contains_key(name) {
                    old(self).fonts()[name]
                } else {
                    Map::<u32, F>::empty()
                };
                final(self).fonts() == old(self).fonts().insert(name, before.insert(size, font))
            }),
    {
        let n = file_name.unicode_len();
        let name = file_name.substring_char(0, n - 4);
        let ghost fname = family_of_file(file_name@);
        assert(name@ == fname);
        let r = self.find_family(name);
        proof {
            self.lemma_family_lookup(fname, r);
        }
        let ghost e = self.entries();
        let ghost fams = self.families@;
        match r {
            None => {
                let ghost fam_sizes = seq![(size, font)];
                let fam = FontFamily { name: name.to_owned(), sizes: vec![(size, font)] };
                self.families.push(fam);
                proof {
                    assert(fam.sizes@ =~= fam_sizes);
                    assert(pairs_map(fam_sizes) =~= Map::<u32, F>::empty().insert(size, font)) by {
                        lemma_pairs_map_push(Seq::<(u32, F)>::empty(), size, font);
                        assert(Seq::<(u32, F)>::empty().push((size, font)) =~= fam_sizes);
                        assert(pairs_map(Seq::<(u32, F)>::empty()) =~= Map::<u32, F>::empty());
                    }
                    assert(self.entries() =~= e.push((fname, pairs_map(fam_sizes))));
                    lemma_pairs_map_push(e, fname, pairs_map(fam_sizes));
                    assert forall|k: int| 0 <= k < self.families@.len() implies unique_keys(
                        #[trigger] self.families@[k].sizes@,
                    ) by {
                        if k < fams.len() {
                            assert(self.families@[k] == fams[k]);
                        }
                    }
                }
            },
            Some(i) => {
                let mut fam = self.families.remove(i);
                proof {
                    assert(fam == fams[i as int]);
                    assert(unique_keys(fam.sizes@));
                }
                let ghost old_sizes = fam.sizes@;
                match Self::find_size(&fam.sizes, size) {
                    Some(j) => {
                        fam.sizes.set(j, (size, font));
                        proof {
                            lemma_pairs_map_update(old_sizes, j as int, font);
                            assert(fam.sizes@ =~= old_sizes.update(j as int, (old_sizes[j as int].0, font)));
                        }
                    },
                    None => {
                        fam.sizes.push((size, font));
                        proof {
                            assert(!pairs_map(old_sizes).contains_key(size)) by {
                                if pairs_map(old_sizes).contains_key(size) {
                                    let k = choose|k: int| 0 <= k < old_sizes.len() && old_sizes[k].0 == size;
                                    assert(old_sizes[k].0 != size);
                                }
                            }
                            lemma_pairs_map_push(old_sizes, size, font);
                        }
                    },
                }
                let ghost new_inner = pairs_map(fam.sizes@);
                self.families.insert(i, fam);
                proof {
                    assert(self.families@ =~= fams.update(i as int, fam));
                    assert(self.entries() =~= e.update(i as int, (e[i as int].0, new_inner)));
                    lemma_pairs_map_update(e, i as int, new_inner);
                    assert forall|k: int| 0 <= k < self.families@.len() implies unique_keys(
                        #[trigger] self.families@[k].sizes@,
                    ) by {
                        if k != i {
                            assert(self.families@[k] == fams[k]);
                        }
                    }
                }
            },
        }
    }
}

} // verus!
