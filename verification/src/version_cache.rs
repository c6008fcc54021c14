//! The version cache: which tag of each component is installed, and the
//! JSON text in which it is kept on disk.

use vstd::prelude::*;

verus! {

/// One remembered installation.
#[derive(Clone, Debug)]
struct CacheEntry {
    name: String,
    tag: String,
}

/// A finite map from component names to the tag last installed for them.
///
/// No name occurs twice. The cache is changed only by [`VersionCache::set`],
/// which an update run calls once a component's installation has succeeded.
#[derive(Debug)]
pub struct VersionCache {
    entries: Vec<CacheEntry>,
}

/// What a member of a JSON object holds, as far as the cache reads it.
#[derive(Clone, Debug, PartialEq, Eq)]
pub enum MemberValue {
    /// A string.
    Text(String),
    /// `null`.
    Null,
    /// A number, a truth value, an array or an object.
    Other,
}

/// What a [`MemberValue`] stands for.
pub enum MemberView {
    Text(Seq<char>),
    Null,
    Other,
}

impl View for MemberValue {
    type V = MemberView;

    open spec fn view(&self) -> MemberView {
        match *self {
            MemberValue::Text(text) => MemberView::Text(text@),
            MemberValue::Null => MemberView::Null,
            MemberValue::Other => MemberView::Other,
        }
    }
}

/// What `serde_json::from_str` makes of a text that is read as a JSON
/// object: nothing where it refuses the text, else the members of the
/// object in the order of their keys, each key once.
pub uninterp spec fn json_object(text: Seq<char>) -> Option<Seq<(Seq<char>, MemberView)>>;

/// What `serde_json::to_string_pretty` writes for a JSON object with these
/// members, every value a string.
pub uninterp spec fn json_text(members: Map<Seq<char>, Seq<char>>) -> Seq<char>;

/// The members of a JSON object, each by its view.
pub open spec fn members_view(members: Seq<(String, MemberValue)>) -> Seq<(Seq<char>, MemberView)> {
    Seq::new(members.len(), |i: int| (members[i].0@, members[i].1@))
}

/// The names under which the cache file keeps its tags. A member of one
/// of these names has to hold a string or `null`.
pub open spec fn is_known_name(name: Seq<char>) -> bool {
    ||| name == "gmod_integration_loader"@
    ||| name == "gmod_integration"@
    ||| name == "gwsockets"@
    ||| name == "reqwest"@
}

/// Whether a JSON object is no cache: under one of the names the cache
/// file knows it holds something that is neither a string nor `null`.
pub open spec fn is_malformed(members: Seq<(Seq<char>, MemberView)>) -> bool {
    exists|i: int|
        0 <= i < members.len() && is_known_name((#[trigger] members[i]).0) && members[i].1
            is Other
}

/// What the members of a JSON object say, one after the other: each member
/// that holds a string is remembered, a later one in place of an earlier
/// one of the same name; a member that holds anything else says nothing.
pub open spec fn remembered(members: Seq<(Seq<char>, MemberView)>) -> Map<Seq<char>, Seq<char>>
    decreases members.len(),
{
    if members.len() == 0 {
        Map::empty()
    } else {
        let before = remembered(members.drop_last());
        match members.last().1 {
            MemberView::Text(tag) => before.insert(members.last().0, tag),
            _ => before,
        }
    }
}

/// The cache that a JSON object stands for: the empty one where the object
/// is malformed, else what its members say. A member of a name the cache
/// file does not know is never a fault: it is remembered where it holds a
/// string and passed over where it holds anything else.
pub open spec fn cache_of(members: Seq<(Seq<char>, MemberView)>) -> Map<Seq<char>, Seq<char>> {
    if is_malformed(members) {
        Map::empty()
    } else {
        remembered(members)
    }
}

/// The cache that is loaded from the text of the cache file: an empty one
/// where the file could not be read, its text is no JSON object, or the
/// object is malformed.
pub open spec fn loaded_cache(text: Option<Seq<char>>) -> Map<Seq<char>, Seq<char>> {
    match text {
        None => Map::empty(),
        Some(t) => match json_object(t) {
            None => Map::empty(),
            Some(members) => cache_of(members),
        },
    }
}

/// A member that holds `null`, and a member of an unknown name that holds
/// no string, change nothing: the object is loaded as if the member were
/// not there.
pub proof fn lemma_other_members_are_passed_over(
    members: Seq<(Seq<char>, MemberView)>,
    name: Seq<char>,
    value: MemberView,
)
    requires
        value is Null || (value is Other && !is_known_name(name)),
    ensures
        cache_of(members.push((name, value))) == cache_of(members),
{
    let longer = members.push((name, value));
    assert(longer.drop_last() =~= members);
    if is_malformed(members) {
        let i = choose|i: int|
            0 <= i < members.len() && is_known_name((#[trigger] members[i]).0) && members[i].1
                is Other;
        assert(longer[i] == members[i]);
    }
    if is_malformed(longer) {
        let i = choose|i: int|
            0 <= i < longer.len() && is_known_name((#[trigger] longer[i]).0) && longer[i].1
                is Other;
        assert(i < members.len());
        assert(longer[i] == members[i]);
    }
}

/// One ill-typed value makes the whole content malformed: where a member
/// of a known name holds neither a string nor `null`, nothing is loaded,
/// whatever the other members hold.
pub proof fn lemma_ill_typed_member_empties_the_cache(
    text: Seq<char>,
    members: Seq<(Seq<char>, MemberView)>,
    i: int,
)
    requires
        json_object(text) == Some(members),
        0 <= i < members.len(),
        is_known_name(members[i].0),
        members[i].1 is Other,
    ensures
        cache_of(members) == Map::<Seq<char>, Seq<char>>::empty(),
        loaded_cache(Some(text)) == Map::<Seq<char>, Seq<char>>::empty(),
{
}

/// The text of a file as the host read it, by its view.
pub open spec fn text_view(text: Option<String>) -> Option<Seq<char>> {
    match text {
        Some(t) => Some(t@),
        None => None,
    }
}

/// Whether some entry of `entries` is filed under `name`.
spec fn names(entries: Seq<CacheEntry>, name: Seq<char>) -> bool {
    exists|i: int| 0 <= i < entries.len() && #[trigger] entries[i].name@ == name
}

/// The position of the entry filed under `name`.
spec fn position(entries: Seq<CacheEntry>, name: Seq<char>) -> int {
    choose|i: int| 0 <= i < entries.len() && #[trigger] entries[i].name@ == name
}

/// No two entries share a name.
spec fn distinct(entries: Seq<CacheEntry>) -> bool {
    forall|i: int, j: int|
        0 <= i < j < entries.len() ==> #[trigger] entries[i].name@ != #[trigger] entries[j].name@
}

impl View for VersionCache {
    type V = Map<Seq<char>, Seq<char>>;

    closed spec fn view(&self) -> Map<Seq<char>, Seq<char>> {
        Map::new(
            |name: Seq<char>| names(self.entries@, name),
            |name: Seq<char>| self.entries@[position(self.entries@, name)].tag@,
        )
    }
}

impl VersionCache {
    #[verifier::type_invariant]
    spec fn well_formed(self) -> bool {
        distinct(self.entries@)
    }

    /// The cache that remembers nothing.
    pub fn new() -> (cache: VersionCache)
        ensures
            cache@ == Map::<Seq<char>, Seq<char>>::empty(),
    {
        let cache = VersionCache { entries: Vec::new() };
        assert(cache@ =~= Map::<Seq<char>, Seq<char>>::empty());
        cache
    }

    /// Finds the entry filed under `key`.
    fn find(&self, key: &String) -> (r: Option<usize>)
        ensures
            match r {
                Some(i) => i < self.entries@.len() && self.entries@[i as int].name@ == key@,
                None => !names(self.entries@, key@),
            },
    {
        let mut i: usize = 0;
        while i < self.entries.len()
            invariant
                i <= self.entries@.len(),
                forall|j: int| 0 <= j < i ==> self.entries@[j].name@ != key@,
            decreases self.entries@.len() - i,
        {
            if self.entries[i].name == *key {
                return Some(i);
            }
            i = i + 1;
        }
        None
    }

    /// The tag remembered for `name`, if there is one.
    pub fn get(&self, name: &str) -> (r: Option<String>)
        ensures
            match r {
                Some(tag) => self@.contains_key(name@) && self@[name@] == tag@,
                None => !self@.contains_key(name@),
            },
    {
        proof {
            use_type_invariant(self);
        }
        let key = String::from_str(name);
        match self.find(&key) {
            Some(i) => Some(self.entries[i].tag.clone()),
            None => None,
        }
    }

    /// Whether `tag` is the tag remembered for `name`.
    pub fn holds(&self, name: &str, tag: &str) -> (r: bool)
        ensures
            r == (self@.contains_key(name@) && self@[name@] == tag@),
    {
        proof {
            use_type_invariant(self);
        }
        let key = String::from_str(name);
        match self.find(&key) {
            Some(i) => {
                let wanted = String::from_str(tag);
                self.entries[i].tag == wanted
            },
            None => false,
        }
    }

    /// Remembers `tag` for `name`, in place of what was remembered before.
    pub fn set(&mut self, name: &str, tag: &str)
        ensures
            final(self)@ == old(self)@.insert(name@, tag@),
    {
        proof {
            use_type_invariant(&*self);
        }
        let key = String::from_str(name);
        let ghost before = self.entries@;
        let mut kept: Vec<CacheEntry> = Vec::new();
        let mut found = false;
        let mut i: usize = 0;
        while i < self.entries.len()
            invariant
                self.entries@ == before,
                key@ == name@,
                i <= before.len(),
                kept@.len() == i,
                forall|j: int| 0 <= j < i ==> (#[trigger] kept@[j]).name@ == before[j].name@,
                forall|j: int|
                    0 <= j < i ==> (#[trigger] kept@[j]).tag@ == (if before[j].name@ == name@ {
                        tag@
                    } else {
                        before[j].tag@
                    }),
                found == (exists|j: int| 0 <= j < i && #[trigger] before[j].name@ == name@),
            decreases before.len() - i,
        {
            let same = self.entries[i].name == key;
            let new_tag = if same {
                String::from_str(tag)
            } else {
                self.entries[i].tag.clone()
            };
            kept.push(CacheEntry { name: self.entries[i].name.clone(), tag: new_tag });
            found = found || same;
            i = i + 1;
        }
        if !found {
            kept.push(CacheEntry { name: key, tag: String::from_str(tag) });
        }
        proof {
            let after = kept@;
            let n = before.len() as int;
            assert(distinct(after));
            assert forall|k: Seq<char>| names(after, k) == (names(before, k) || k == name@) by {
                if names(before, k) {
                    let j = position(before, k);
                    assert(after[j].name@ == k);
                }
                if k == name@ {
                    if found {
                        let j = choose|j: int| 0 <= j < n && #[trigger] before[j].name@ == name@;
                        assert(after[j].name@ == k);
                    } else {
                        assert(after[n].name@ == k);
                    }
                }
                if names(after, k) && k != name@ {
                    let j = position(after, k);
                    assert(before[j].name@ == k);
                }
            }
            assert forall|k: Seq<char>| names(after, k) implies after[position(after, k)].tag@ == (
            if k == name@ {
                tag@
            } else {
                before[position(before, k)].tag@
            }) by {
                let j = position(after, k);
                if k != name@ {
                    let h = position(before, k);
                    assert(before[j].name@ == k);
                    if j != h {
                        assert(before[j].name@ != before[h].name@);
                    }
                }
            }
        }
        self.entries = kept;
        assert(self@ =~= old(self)@.insert(name@, tag@));
    }

    /// A cache that remembers the same as this one.
    pub fn copy(&self) -> (r: VersionCache)
        ensures
            r@ == self@,
    {
        proof {
            use_type_invariant(self);
        }
        let mut kept: Vec<CacheEntry> = Vec::new();
        let mut i: usize = 0;
        while i < self.entries.len()
            invariant
                i <= self.entries@.len(),
                kept@.len() == i,
                forall|j: int| 0 <= j < i ==> #[trigger] kept@[j] == self.entries@[j],
            decreases self.entries@.len() - i,
        {
            kept.push(
                CacheEntry { name: self.entries[i].name.clone(), tag: self.entries[i].tag.clone() },
            );
            i = i + 1;
        }
        assert(kept@ =~= self.entries@);
        VersionCache { entries: kept }
    }

    /// The names the cache remembers a tag for, each once.
    pub fn component_names(&self) -> (r: Vec<String>)
        ensures
            forall|i: int| 0 <= i < r@.len() ==> self@.contains_key(#[trigger] r@[i]@),
            forall|name: Seq<char>|
                self@.contains_key(name) ==> exists|i: int|
                    0 <= i < r@.len() && #[trigger] r@[i]@ == name,
            forall|i: int, j: int|
                0 <= i < j < r@.len() ==> #[trigger] r@[i]@ != #[trigger] r@[j]@,
    {
        proof {
            use_type_invariant(self);
        }
        let mut out: Vec<String> = Vec::new();
        let mut i: usize = 0;
        while i < self.entries.len()
            invariant
                i <= self.entries@.len(),
                out@.len() == i,
                forall|j: int| 0 <= j < i ==> (#[trigger] out@[j])@ == self.entries@[j].name@,
            decreases self.entries@.len() - i,
        {
            out.push(self.entries[i].name.clone());
            i = i + 1;
        }
        proof {
            assert forall|k: int| 0 <= k < out@.len() implies self@.contains_key(
                #[trigger] out@[k]@,
            ) by {
                assert(self.entries@[k].name@ == out@[k]@);
            }
            assert forall|name: Seq<char>| self@.contains_key(name) implies exists|k: int|
                0 <= k < out@.len() && #[trigger] out@[k]@ == name by {
                let k = position(self.entries@, name);
                assert(out@[k]@ == name);
            }
            assert forall|a: int, b: int| 0 <= a < b < out@.len() implies #[trigger] out@[a]@
                != #[trigger] out@[b]@ by {
                assert(self.entries@[a].name@ != self.entries@[b].name@);
            }
        }
        out
    }
}

/// Calls `serde_json::from_str` for a map from strings to JSON values, and
/// lists the map's members, each value by its kind.
///
/// Trusted: whether the text is accepted and which members come out is a
/// function of the text alone, named [`json_object`]. A string is handed
/// out as it is; of any other value only its kind.
#[verifier::external_body]
fn parse_members(text: &str) -> (r: Option<Vec<(String, MemberValue)>>)
    ensures
        match r {
            Some(members) => json_object(text@) == Some(members_view(members@)),
            None => json_object(text@) is None,
        },
{
    let object: std::collections::BTreeMap<String, serde_json::Value> =
        serde_json::from_str(text).ok()?;
    Some(object.into_iter().map(|(name, value)| (name, match value {
        serde_json::Value::String(text) => MemberValue::Text(text),
        serde_json::Value::Null => MemberValue::Null,
        serde_json::Value::Bool(_) => MemberValue::Other,
        serde_json::Value::Number(_) => MemberValue::Other,
        serde_json::Value::Array(_) => MemberValue::Other,
        serde_json::Value::Object(_) => MemberValue::Other,
    })).collect())
}

/// Calls `serde_json::to_string_pretty` on a map that holds the entries of
/// the cache.
///
/// Trusted: the call succeeds, as every key of the map is a string and the
/// text is written to memory; the text is a function of what the cache
/// remembers, named [`json_text`]; and the order in which the entries were
/// made does not show in it, as the map is sorted by name.
#[verifier::external_body]
fn render_members(cache: &VersionCache) -> (r: Option<String>)
    ensures
        text_view(r) == Some(json_text(cache@)),
{
    let object: std::collections::BTreeMap<&str, &str> = cache.entries.iter().map(
        |entry| (entry.name.as_str(), entry.tag.as_str()),
    ).collect();
    serde_json::to_string_pretty(&object).ok()
}

/// Executable form of [`is_known_name`].
pub fn name_is_known(name: &str) -> (r: bool)
    ensures
        r == is_known_name(name@),
{
    let name = String::from_str(name);
    name == String::from_str("gmod_integration_loader") || name == String::from_str(
        "gmod_integration",
    ) || name == String::from_str("gwsockets") || name == String::from_str("reqwest")
}

/// Executable form of [`is_malformed`].
pub fn members_are_malformed(members: &Vec<(String, MemberValue)>) -> (r: bool)
    ensures
        r == is_malformed(members_view(members@)),
{
    let ghost views = members_view(members@);
    let mut i: usize = 0;
    while i < members.len()
        invariant
            views == members_view(members@),
            i <= members@.len(),
            forall|j: int|
                0 <= j < i ==> !(is_known_name((#[trigger] views[j]).0) && views[j].1 is Other),
        decreases members@.len() - i,
    {
        let ill_typed = match &members[i].1 {
            MemberValue::Other => true,
            _ => false,
        };
        if ill_typed && name_is_known(members[i].0.as_str()) {
            assert(is_known_name(views[i as int].0) && views[i as int].1 is Other);
            return true;
        }
        i = i + 1;
    }
    false
}

impl VersionCache {
    /// Builds the cache that the members of a JSON object stand for, see
    /// [`cache_of`]: an empty one where the object is malformed.
    pub fn from_members(members: &Vec<(String, MemberValue)>) -> (cache: VersionCache)
        ensures
            cache@ == cache_of(members_view(members@)),
    {
        let ghost views = members_view(members@);
        if members_are_malformed(members) {
            return VersionCache::new();
        }
        let mut cache = VersionCache::new();
        let mut i: usize = 0;
        proof {
            assert(views.take(0) =~= Seq::empty());
        }
        while i < members.len()
            invariant
                views == members_view(members@),
                i <= members@.len(),
                cache@ == remembered(views.take(i as int)),
            decreases members@.len() - i,
        {
            proof {
                assert(views.take(i + 1).drop_last() =~= views.take(i as int));
                assert(views.take(i + 1).last() == views[i as int]);
            }
            match &members[i].1 {
                MemberValue::Text(tag) => {
                    cache.set(members[i].0.as_str(), tag.as_str());
                },
                MemberValue::Null => {},
                MemberValue::Other => {},
            }
            i = i + 1;
        }
        proof {
            assert(views.take(i as int) =~= views);
        }
        cache
    }

    /// Loads the cache from the text of the cache file. A file that could
    /// not be read, a text that is no JSON object, and an object that is
    /// malformed give an empty cache: loading never fails.
    pub fn from_text(text: Option<String>) -> (cache: VersionCache)
        ensures
            cache@ == loaded_cache(text_view(text)),
    {
        match text {
            None => VersionCache::new(),
            Some(t) => match parse_members(t.as_str()) {
                None => VersionCache::new(),
                Some(members) => VersionCache::from_members(&members),
            },
        }
    }

    /// The text in which the cache is kept on disk: a JSON object with one
    /// member for each name, sorted by name.
    pub fn to_text(&self) -> (r: String)
        ensures
            r@ == json_text(self@),
    {
        render_members(self).unwrap()
    }
}

impl Clone for VersionCache {
    fn clone(&self) -> (r: VersionCache)
        ensures
            r@ == self@,
    {
        self.copy()
    }
}

} // verus!
