//! Persisted configuration: a versioned settings document holding a theme and
//! an ordered collection of named compression profiles. Profile id 0 is the
//! permanent default and can never be deleted.

use vstd::prelude::*;
use vstd::string::StringExecFns;

use crate::paths::str_eq;
use crate::types::ImageType;

verus! {

/// The decimal digit character for `d` (0 through 9).
pub open spec fn dec_digit(d: nat) -> char {
    if d == 0 {
        '0'
    } else if d == 1 {
        '1'
    } else if d == 2 {
        '2'
    } else if d == 3 {
        '3'
    } else if d == 4 {
        '4'
    } else if d == 5 {
        '5'
    } else if d == 6 {
        '6'
    } else if d == 7 {
        '7'
    } else if d == 8 {
        '8'
    } else {
        '9'
    }
}

/// The decimal rendering of `n`, most significant digit first, no leading
/// zeros (except for `n == 0` itself).
pub open spec fn dec_str(n: nat) -> Seq<char>
    decreases n,
{
    if n < 10 {
        seq![dec_digit(n)]
    } else {
        dec_str(n / 10) + seq![dec_digit(n % 10)]
    }
}

fn digit_string(d: usize) -> (r: String)
    requires
        d < 10,
    ensures
        r@ == seq![dec_digit(d as nat)],
{
    if d == 0 {
        proof {
            reveal_strlit("0");
            assert("0"@ =~= seq!['0']);
        }
        "0".to_owned()
    } else if d == 1 {
        proof {
            reveal_strlit("1");
            assert("1"@ =~= seq!['1']);
        }
        "1".to_owned()
    } else if d == 2 {
        proof {
            reveal_strlit("2");
            assert("2"@ =~= seq!['2']);
        }
        "2".to_owned()
    } else if d == 3 {
        proof {
            reveal_strlit("3");
            assert("3"@ =~= seq!['3']);
        }
        "3".to_owned()
    } else if d == 4 {
        proof {
            reveal_strlit("4");
            assert("4"@ =~= seq!['4']);
        }
        "4".to_owned()
    } else if d == 5 {
        proof {
            reveal_strlit("5");
            assert("5"@ =~= seq!['5']);
        }
        "5".to_owned()
    } else if d == 6 {
        proof {
            reveal_strlit("6");
            assert("6"@ =~= seq!['6']);
        }
        "6".to_owned()
    } else if d == 7 {
        proof {
            reveal_strlit("7");
            assert("7"@ =~= seq!['7']);
        }
        "7".to_owned()
    } else if d == 8 {
        proof {
            reveal_strlit("8");
            assert("8"@ =~= seq!['8']);
        }
        "8".to_owned()
    } else {
        proof {
            reveal_strlit("9");
            assert("9"@ =~= seq!['9']);
        }
        "9".to_owned()
    }
}

/// Renders `n` in decimal.
pub fn usize_to_string(n: usize) -> (r: String)
    ensures
        r@ == dec_str(n as nat),
    decreases n,
{
    if n < 10 {
        digit_string(n)
    } else {
        let mut s = usize_to_string(n / 10);
        let d = digit_string(n % 10);
        s.append(d.as_str());
        s
    }
}

/// The settings document as persisted by the host.
#[derive(Debug, Clone)]
pub struct SettingsData {
    pub version: u32,
    pub theme: ThemeKind,
    pub profiles: Vec<ProfileData>,
}

/// The user's theme selection.
#[derive(Debug, Clone, Copy, PartialEq, Eq, Structural)]
pub enum ThemeKind {
    Light,
    Dark,
    System,
}

/// A named, numerically-identified set of compression and conversion
/// preferences.
#[derive(Debug, Clone)]
pub struct ProfileData {
    pub name: String,
    pub id: u32,
    pub active: bool,
    pub should_resize: bool,
    pub should_convert: bool,
    pub should_overwrite: bool,
    pub add_posfix: bool,
    pub convert_extension: ImageType,
    pub postfix: String,
    pub resize_width: u32,
    pub resize_height: u32,
    pub jpeg_quality: u32,
    pub png_quality: u32,
    pub webp_quality: u32,
    pub gif_quality: u32,
}

/// The fixed preference knobs a freshly created profile carries, shared by the
/// default profile and every profile added later.
pub open spec fn has_fresh_knobs(p: ProfileData) -> bool {
    &&& !p.should_resize
    &&& !p.should_convert
    &&& !p.should_overwrite
    &&& p.add_posfix
    &&& p.convert_extension is WEBP
    &&& p.postfix@ == ".min"@
    &&& p.resize_width == 1000
    &&& p.resize_height == 1000
    &&& p.jpeg_quality == 80
    &&& p.png_quality == 80
    &&& p.webp_quality == 80
    &&& p.gif_quality == 80
}

/// The permanent default profile: id 0, named "Default", active, with the
/// fresh preference knobs.
pub open spec fn is_default_profile(p: ProfileData) -> bool {
    &&& p.name@ == "Default"@
    &&& p.id == 0
    &&& p.active
    &&& has_fresh_knobs(p)
}

impl ProfileData {
    /// The default profile.
    pub fn new() -> (r: Self)
        ensures
            is_default_profile(r),
    {
        Self {
            name: "Default".to_owned(),
            id: 0,
            active: true,
            should_resize: false,
            should_convert: false,
            should_overwrite: false,
            add_posfix: true,
            convert_extension: ImageType::WEBP,
            postfix: ".min".to_owned(),
            resize_width: 1000,
            resize_height: 1000,
            jpeg_quality: 80,
            png_quality: 80,
            webp_quality: 80,
            gif_quality: 80,
        }
    }

    /// A fresh, inactive profile under the given id and name, with the default
    /// preference knobs.
    pub fn new_params(id: u32, name: String) -> (r: Self)
        ensures
            r.id == id,
            r.name == name,
            !r.active,
            has_fresh_knobs(r),
    {
        let mut this = Self::new();
        this.id = id;
        this.name = name;
        this.active = false;
        this
    }
}

/// The first index whose profile carries `id`, or -1 when none does.
pub open spec fn find_profile_index(profiles: Seq<ProfileData>, id: u32) -> int
    decreases profiles.len(),
{
    if profiles.len() == 0 {
        -1
    } else if profiles[0].id == id {
        0
    } else {
        let rest = find_profile_index(profiles.drop_first(), id);
        if rest == -1 {
            -1
        } else {
            rest + 1
        }
    }
}

pub proof fn lemma_find_profile_index_props(profiles: Seq<ProfileData>, id: u32)
    ensures
        -1 <= find_profile_index(profiles, id) < profiles.len(),
        find_profile_index(profiles, id) >= 0 ==> profiles[find_profile_index(profiles, id)].id
            == id,
        find_profile_index(profiles, id) == -1 ==> forall|j: int|
            0 <= j < profiles.len() ==> profiles[j].id != id,
    decreases profiles.len(),
{
    if profiles.len() > 0 && profiles[0].id != id {
        lemma_find_profile_index_props(profiles.drop_first(), id);
        assert forall|j: int|
            find_profile_index(profiles, id) == -1 && 0 <= j < profiles.len() implies profiles[j].id
            != id by {
            if j > 0 {
                assert(profiles.drop_first()[j - 1] == profiles[j]);
            }
        }
    }
}

pub proof fn lemma_find_profile_index_first(profiles: Seq<ProfileData>, id: u32, k: int)
    requires
        0 <= k < profiles.len(),
        profiles[k].id == id,
        forall|j: int| 0 <= j < k ==> profiles[j].id != id,
    ensures
        find_profile_index(profiles, id) == k,
    decreases profiles.len(),
{
    if k > 0 {
        assert(profiles.drop_first()[k - 1] == profiles[k]);
        assert forall|j: int| 0 <= j < k - 1 implies profiles.drop_first()[j].id != id by {
            assert(profiles.drop_first()[j] == profiles[j + 1]);
        }
        lemma_find_profile_index_first(profiles.drop_first(), id, k - 1);
    }
}

/// Whether some profile in the collection carries exactly this name.
pub open spec fn name_taken(profiles: Seq<ProfileData>, n: Seq<char>) -> bool {
    exists|j: int| 0 <= j < profiles.len() && profiles[j].name@ == n
}

/// The collection invariant on names: pairwise distinct.
pub open spec fn names_unique(profiles: Seq<ProfileData>) -> bool {
    forall|i: int, j: int| 0 <= i < j < profiles.len() ==> profiles[i].name@ != profiles[j].name@
}

/// The name a colliding profile is renamed to: the requested name with a
/// numeric suffix in parentheses.
pub open spec fn suffixed_name(name: Seq<char>, k: nat) -> Seq<char> {
    name + " ("@ + dec_str(k) + ")"@
}

pub proof fn lemma_dec_str_shape(n: nat)
    ensures
        dec_str(n).len() >= 1,
        n >= 10 ==> dec_str(n).len() >= 2,
    decreases n,
{
    if n >= 10 {
        lemma_dec_str_shape(n / 10);
    }
}

/// Distinct numbers render to distinct decimal strings.
pub proof fn lemma_dec_str_injective(a: nat, b: nat)
    requires
        dec_str(a) == dec_str(b),
    ensures
        a == b,
    decreases a,
{
    lemma_dec_str_shape(a);
    lemma_dec_str_shape(b);
    if a < 10 && b < 10 {
        assert(dec_str(a)[0] == dec_digit(a));
        assert(dec_str(b)[0] == dec_digit(b));
        assert(a == b);
    } else if a < 10 && b >= 10 {
        assert(dec_str(a).len() == 1);
        assert(false);
    } else if a >= 10 && b < 10 {
        assert(dec_str(b).len() == 1);
        assert(false);
    } else {
        assert(dec_str(a).last() == dec_digit(a % 10));
        assert(dec_str(b).last() == dec_digit(b % 10));
        assert(a % 10 == b % 10);
        assert(dec_str(a).drop_last() =~= dec_str(a / 10));
        assert(dec_str(b).drop_last() =~= dec_str(b / 10));
        lemma_dec_str_injective(a / 10, b / 10);
    }
}

/// Distinct suffix numbers give distinct suffixed names.
pub proof fn lemma_suffixed_name_injective(name: Seq<char>, k1: nat, k2: nat)
    requires
        suffixed_name(name, k1) == suffixed_name(name, k2),
    ensures
        k1 == k2,
{
    reveal_strlit(" (");
    reveal_strlit(")");
    lemma_dec_str_shape(k1);
    lemma_dec_str_shape(k2);
    let s1 = suffixed_name(name, k1);
    let s2 = suffixed_name(name, k2);
    assert(s1.len() == name.len() + 2 + dec_str(k1).len() + 1);
    assert(s2.len() == name.len() + 2 + dec_str(k2).len() + 1);
    assert(dec_str(k1) =~= s1.subrange(name.len() as int + 2, s1.len() - 1));
    assert(dec_str(k2) =~= s2.subrange(name.len() as int + 2, s2.len() - 1));
    lemma_dec_str_injective(k1, k2);
}

/// When the suffixed names 1 through `m` are all taken, the collection holds
/// at least `m` profiles: the suffixed names are pairwise distinct, so each
/// needs a profile of its own.
proof fn lemma_taken_suffixes_bounded(profiles: Seq<ProfileData>, name: Seq<char>, m: nat)
    requires
        forall|j: nat| 1 <= j <= m ==> name_taken(profiles, suffixed_name(name, j)),
    ensures
        m <= profiles.len(),
    decreases m,
{
    if m > 0 {
        assert(name_taken(profiles, suffixed_name(name, m)));
        let i = choose|i: int|
            0 <= i < profiles.len() && profiles[i].name@ == suffixed_name(name, m);
        let rest = profiles.remove(i);
        assert(rest.len() == profiles.len() - 1);
        assert forall|j: nat| 1 <= j <= (m - 1) as nat implies name_taken(
            rest,
            suffixed_name(name, j),
        ) by {
            assert(name_taken(profiles, suffixed_name(name, j)));
            let w = choose|w: int|
                0 <= w < profiles.len() && profiles[w].name@ == suffixed_name(name, j);
            if w == i {
                lemma_suffixed_name_injective(name, j, m);
                assert(false);
            }
            if w < i {
                assert(rest[w] == profiles[w]);
            } else {
                assert(rest[w - 1] == profiles[w]);
            }
        }
        lemma_taken_suffixes_bounded(rest, name, (m - 1) as nat);
    }
}

/// The greatest id among the profiles (-1 when there are none).
pub open spec fn spec_max_id(profiles: Seq<ProfileData>) -> int
    decreases profiles.len(),
{
    if profiles.len() == 0 {
        -1
    } else {
        let m = spec_max_id(profiles.drop_last());
        if profiles.last().id as int > m {
            profiles.last().id as int
        } else {
            m
        }
    }
}

/// The first position holding a profile with this id.
fn find_profile(profiles: &Vec<ProfileData>, profile_id: u32) -> (r: Option<usize>)
    ensures
        match r {
            Some(i) => find_profile_index(profiles@, profile_id) == i as int && i < profiles@.len(),
            None => find_profile_index(profiles@, profile_id) == -1,
        },
{
    let mut i: usize = 0;
    while i < profiles.len()
        invariant
            i <= profiles@.len(),
            forall|j: int| 0 <= j < i ==> profiles@[j].id != profile_id,
        decreases profiles@.len() - i,
    {
        if profiles[i].id == profile_id {
            proof {
                lemma_find_profile_index_first(profiles@, profile_id, i as int);
            }
            return Some(i);
        }
        i = i + 1;
    }
    proof {
        lemma_find_profile_index_props(profiles@, profile_id);
    }
    None
}

/// Whether some profile already carries this name.
fn name_exists(profiles: &Vec<ProfileData>, name: &str) -> (r: bool)
    ensures
        r == name_taken(profiles@, name@),
{
    let mut i: usize = 0;
    while i < profiles.len()
        invariant
            i <= profiles@.len(),
            forall|j: int| 0 <= j < i ==> profiles@[j].name@ != name@,
        decreases profiles@.len() - i,
    {
        if str_eq(profiles[i].name.as_str(), name) {
            proof {
                assert(profiles@[i as int].name@ == name@);
            }
            return true;
        }
        i = i + 1;
    }
    proof {
        assert(!name_taken(profiles@, name@)) by {
            if name_taken(profiles@, name@) {
                let w = choose|w: int|
                    0 <= w < profiles@.len() && profiles@[w].name@ == name@;
                assert(profiles@[w].name@ != name@);
            }
        }
    }
    false
}

/// The requested name with the smallest numeric suffix no profile carries:
/// "name (1)" when that is free, else "name (2)", and so on. At most one
/// suffix per existing profile can be taken, so the search ends.
fn fresh_suffixed_name(profiles: &Vec<ProfileData>, name: &str) -> (r: String)
    requires
        profiles@.len() < usize::MAX,
    ensures
        !name_taken(profiles@, r@),
        exists|k: nat|
            1 <= k && r@ == suffixed_name(name@, k) && (forall|j: nat|
                1 <= j < k ==> name_taken(profiles@, suffixed_name(name@, j))),
{
    let mut k: usize = 1;
    loop
        invariant
            1 <= k <= profiles@.len() + 1,
            profiles@.len() < usize::MAX,
            forall|j: nat| 1 <= j < k ==> name_taken(profiles@, suffixed_name(name@, j)),
        decreases profiles@.len() + 1 - k,
    {
        let num = usize_to_string(k);
        let mut cand = String::from_str(name);
        cand.append(" (");
        cand.append(num.as_str());
        cand.append(")");
        proof {
            assert(cand@ =~= suffixed_name(name@, k as nat));
        }
        if !name_exists(profiles, cand.as_str()) {
            return cand;
        }
        proof {
            lemma_taken_suffixes_bounded(profiles@, name@, k as nat);
        }
        k = k + 1;
    }
}

/// The greatest id among the profiles.
fn highest_profile_id(profiles: &Vec<ProfileData>) -> (r: u32)
    requires
        profiles@.len() > 0,
    ensures
        r as int == spec_max_id(profiles@),
{
    proof {
        assert(profiles@.subrange(0, 1).drop_last() =~= profiles@.subrange(0, 0));
        assert(profiles@.subrange(0, 1).last() == profiles@[0]);
        assert(spec_max_id(profiles@.subrange(0, 0)) == -1);
    }
    let mut best: u32 = profiles[0].id;
    let mut i: usize = 1;
    while i < profiles.len()
        invariant
            1 <= i <= profiles@.len(),
            best as int == spec_max_id(profiles@.subrange(0, i as int)),
        decreases profiles@.len() - i,
    {
        proof {
            assert(profiles@.subrange(0, i as int + 1).drop_last() =~= profiles@.subrange(
                0,
                i as int,
            ));
            assert(profiles@.subrange(0, i as int + 1).last() == profiles@[i as int]);
        }
        if profiles[i].id > best {
            best = profiles[i].id;
        }
        i = i + 1;
    }
    proof {
        assert(profiles@.subrange(0, profiles@.len() as int) =~= profiles@);
    }
    best
}

impl SettingsData {
    /// The initial settings document: version 1, system theme, and the default
    /// profile as the only entry.
    pub fn new() -> (r: Self)
        ensures
            r.version == 1,
            r.theme is System,
            r.profiles@.len() == 1,
            is_default_profile(r.profiles@[0]),
    {
        Self { version: 1, theme: ThemeKind::System, profiles: vec![ProfileData::new()] }
    }

    /// Deletes the profile carrying `profile_id`. The default profile (id 0)
    /// can never be deleted; an unknown id is an error; otherwise exactly the
    /// first profile under that id is removed.
    pub fn delete_profile(&mut self, profile_id: u32) -> (r: Result<(), String>)
        ensures
            profile_id == 0 ==> (r matches Err(e) && e@ == "Cannot delete default profile"@
                && *final(self) == *old(self)),
            profile_id != 0 && find_profile_index(old(self).profiles@, profile_id) == -1 ==> (r
                matches Err(e) && e@ == "Profile not found"@ && *final(self) == *old(self)),
            profile_id != 0 && find_profile_index(old(self).profiles@, profile_id) >= 0 ==> r is Ok
                && final(self).profiles@ == old(self).profiles@.remove(
                find_profile_index(old(self).profiles@, profile_id),
            ) && final(self).version == old(self).version && final(self).theme == old(self).theme,
    {
        if profile_id == 0 {
            return Err("Cannot delete default profile".to_owned());
        }
        match find_profile(&self.profiles, profile_id) {
            Some(idx) => {
                let _removed = self.profiles.remove(idx);
                Ok(())
            },
            None => Err("Profile not found".to_owned()),
        }
    }

    /// Resets the profile carrying `profile_id` to the fresh preference knobs,
    /// keeping its id and name; an unknown id is an error.
    pub fn reset_profile(&mut self, profile_id: u32) -> (r: Result<(), String>)
        ensures
            find_profile_index(old(self).profiles@, profile_id) == -1 ==> (r matches Err(e) && e@
                == "Profile not found"@ && *final(self) == *old(self)),
            find_profile_index(old(self).profiles@, profile_id) >= 0 ==> {
                let idx = find_profile_index(old(self).profiles@, profile_id);
                &&& r is Ok
                &&& final(self).profiles@.len() == old(self).profiles@.len()
                &&& forall|j: int|
                    0 <= j < old(self).profiles@.len() && j != idx ==> final(self).profiles@[j]
                        == old(self).profiles@[j]
                &&& final(self).profiles@[idx].id == profile_id
                &&& final(self).profiles@[idx].name == old(self).profiles@[idx].name
                &&& !final(self).profiles@[idx].active
                &&& has_fresh_knobs(final(self).profiles@[idx])
                &&& final(self).version == old(self).version
                &&& final(self).theme == old(self).theme
            },
    {
        match find_profile(&self.profiles, profile_id) {
            Some(idx) => {
                let name = self.profiles[idx].name.clone();
                self.profiles[idx] = ProfileData::new_params(profile_id, name);
                Ok(())
            },
            None => Err("Profile not found".to_owned()),
        }
    }

    /// Adds a fresh profile under `name`, giving it the next id after the
    /// current greatest. A name no profile carries is kept as it is; a name
    /// already in use is renamed by appending the smallest free numeric
    /// suffix in parentheses, so the added name never duplicates an existing
    /// one.
    pub fn add_profile(&mut self, name: String)
        requires
            old(self).profiles@.len() > 0,
            old(self).profiles@.len() < usize::MAX,
            spec_max_id(old(self).profiles@) < u32::MAX,
        ensures
            ({
                let np = final(self).profiles@.last();
                &&& final(self).profiles@ == old(self).profiles@.push(np)
                &&& np.id as int == spec_max_id(old(self).profiles@) + 1
                &&& !np.active
                &&& has_fresh_knobs(np)
                &&& !name_taken(old(self).profiles@, np.name@)
                &&& (!name_taken(old(self).profiles@, name@) ==> np.name@ == name@)
                &&& (name_taken(old(self).profiles@, name@) ==> exists|k: nat|
                    1 <= k && np.name@ == suffixed_name(name@, k) && (forall|j: nat|
                        1 <= j < k ==> name_taken(old(self).profiles@, suffixed_name(name@, j))))
            }),
            final(self).version == old(self).version,
            final(self).theme == old(self).theme,
    {
        let final_name: String = if name_exists(&self.profiles, name.as_str()) {
            fresh_suffixed_name(&self.profiles, name.as_str())
        } else {
            name
        };
        let highest = highest_profile_id(&self.profiles);
        self.profiles.push(ProfileData::new_params(highest + 1, final_name));
    }
}

/// Law: the settings invariant that profile names are unique within the
/// collection is preserved by adding. The appended profile's name differs
/// from every existing one, so pairwise-distinct names stay pairwise
/// distinct.
pub proof fn lemma_add_keeps_names_unique(before: Seq<ProfileData>, np: ProfileData)
    requires
        names_unique(before),
        !name_taken(before, np.name@),
    ensures
        names_unique(before.push(np)),
{
    let after = before.push(np);
    assert forall|i: int, j: int|
        0 <= i < j < after.len() implies after[i].name@ != after[j].name@ by {
        if j == before.len() {
            if after[i].name@ == np.name@ {
                assert(before[i].name@ == np.name@);
                assert(name_taken(before, np.name@));
            }
        }
    }
}

} // verus!
