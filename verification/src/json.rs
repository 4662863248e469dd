//! JSON values as the screen settings hold them, and the settings map.
use vstd::prelude::*;

verus! {

/// A JSON number. Floats are carried as their IEEE-754 bit pattern so that
/// a value passes through the library unchanged. A parsed document holds
/// non-negative integers as `PosInt` and negative ones as `NegInt`; a
/// `NegInt` built by hand may still be non-negative, and is then read by its
/// value like a `PosInt`.
#[derive(Debug, PartialEq, Eq, Structural, Clone, Copy)]
pub enum JsonNumber {
    PosInt(u64),
    NegInt(i64),
    Float(u64),
}

/// A JSON value. Arrays and objects are cons lists, so that two values are
/// equal exactly when they hold the same data.
#[derive(Debug)]
pub enum JsonValue {
    Null,
    Bool(bool),
    Number(JsonNumber),
    Text(String),
    Array(JsonItems),
    Object(JsonMembers),
}

/// The elements of a JSON array, in order.
#[derive(Debug)]
pub enum JsonItems {
    Empty,
    Cons(Box<JsonValue>, Box<JsonItems>),
}

/// The members of a JSON object, in order.
#[derive(Debug)]
pub enum JsonMembers {
    Empty,
    Cons(String, Box<JsonValue>, Box<JsonMembers>),
}

/// The model of a JSON value: the same shape, with text as `Seq<char>`.
pub enum JsonModel {
    Null,
    Bool(bool),
    Number(JsonNumber),
    Text(Seq<char>),
    Array(Seq<JsonModel>),
    Object(Seq<(Seq<char>, JsonModel)>),
}

impl View for JsonValue {
    type V = JsonModel;

    open spec fn view(&self) -> JsonModel {
        self.model()
    }
}

impl JsonValue {
    /// The model of the value.
    pub open spec fn model(&self) -> JsonModel
        decreases self,
    {
        match self {
            JsonValue::Null => JsonModel::Null,
            JsonValue::Bool(b) => JsonModel::Bool(*b),
            JsonValue::Number(n) => JsonModel::Number(*n),
            JsonValue::Text(s) => JsonModel::Text(s@),
            JsonValue::Array(items) => JsonModel::Array(items.models()),
            JsonValue::Object(members) => JsonModel::Object(members.models()),
        }
    }
}

impl JsonItems {
    /// The models of the elements, in order.
    pub open spec fn models(&self) -> Seq<JsonModel>
        decreases self,
    {
        match self {
            JsonItems::Empty => seq![],
            JsonItems::Cons(head, tail) => seq![head.model()] + tail.models(),
        }
    }
}

impl JsonMembers {
    /// The members' keys and value models, in order.
    pub open spec fn models(&self) -> Seq<(Seq<char>, JsonModel)>
        decreases self,
    {
        match self {
            JsonMembers::Empty => seq![],
            JsonMembers::Cons(key, value, rest) => seq![(key@, value.model())] + rest.models(),
        }
    }
}

impl JsonValue {
    /// A copy equal to `self`.
    pub fn deep_clone(&self) -> (r: Self)
        ensures
            r == *self,
        decreases self,
    {
        match self {
            JsonValue::Null => JsonValue::Null,
            JsonValue::Bool(b) => JsonValue::Bool(*b),
            JsonValue::Number(n) => JsonValue::Number(*n),
            JsonValue::Text(s) => JsonValue::Text(s.clone()),
            JsonValue::Array(items) => JsonValue::Array(items.deep_clone()),
            JsonValue::Object(members) => JsonValue::Object(members.deep_clone()),
        }
    }
}

impl Clone for JsonValue {
    fn clone(&self) -> (r: Self)
        ensures
            r == *self,
    {
        self.deep_clone()
    }
}

impl Clone for JsonItems {
    fn clone(&self) -> (r: Self)
        ensures
            r == *self,
    {
        self.deep_clone()
    }
}

impl Clone for JsonMembers {
    fn clone(&self) -> (r: Self)
        ensures
            r == *self,
    {
        self.deep_clone()
    }
}

/// The models of an object's members, in order.
pub open spec fn member_models(members: Seq<(String, JsonValue)>) -> Seq<(Seq<char>, JsonModel)> {
    members.map_values(|e: (String, JsonValue)| (e.0@, e.1@))
}

/// A JSON object with `members`, in order.
pub fn json_object(members: Vec<(String, JsonValue)>) -> (r: JsonValue)
    ensures
        r@ == JsonModel::Object(member_models(members@)),
{
    let ghost full = member_models(members@);
    let ghost n = members@.len();
    let mut rest = members;
    let mut list = JsonMembers::Empty;
    assert(full.subrange(n as int, n as int) =~= Seq::<(Seq<char>, JsonModel)>::empty());
    while rest.len() > 0
        invariant
            rest@.len() <= n,
            n == full.len(),
            forall|i: int| 0 <= i < rest@.len() ==> (#[trigger] rest@[i]).0@ == full[i].0 && rest@[i].1@ == full[i].1,
            list.models() == full.subrange(rest@.len() as int, n as int),
        decreases rest@.len(),
    {
        let ghost before = list.models();
        let (k, v) = rest.pop().unwrap();
        let ghost i = rest@.len() as int;
        assert(k@ == full[i].0 && v@ == full[i].1);
        list = JsonMembers::Cons(k, Box::new(v), Box::new(list));
        assert(list.models() == seq![(full[i].0, full[i].1)] + before);
        assert(list.models() =~= full.subrange(i, n as int));
    }
    assert(full.subrange(0, n as int) =~= full);
    JsonValue::Object(list)
}

/// `Value::get` with a key: the member `key` of an object, `None` for any
/// other value.
pub open spec fn json_get(v: JsonModel, key: Seq<char>) -> Option<JsonModel> {
    match v {
        JsonModel::Object(members) => lookup(members, key),
        _ => None,
    }
}

impl JsonValue {
    /// The member `key` of an object; `None` for any other value.
    pub fn get(&self, key: &str) -> (r: Option<&JsonValue>)
        ensures
            match r {
                Some(v) => json_get(self@, key@) == Some(v@),
                None => json_get(self@, key@) is None,
            },
    {
        match self {
            JsonValue::Object(members) => members.find(&key.to_owned()),
            _ => None,
        }
    }
}

impl JsonMembers {
    /// The value of the first member under `key`.
    pub fn find(&self, key: &String) -> (r: Option<&JsonValue>)
        ensures
            match r {
                Some(v) => lookup(self.models(), key@) == Some(v@),
                None => lookup(self.models(), key@) is None,
            },
        decreases self,
    {
        match self {
            JsonMembers::Empty => None,
            JsonMembers::Cons(k, v, rest) => {
                proof {
                    assert((seq![(k@, v.model())] + rest.models()).drop_first() =~= rest.models());
                }
                if *k == *key {
                    Some(&**v)
                } else {
                    rest.find(key)
                }
            },
        }
    }
}

impl JsonItems {
    /// A copy equal to `self`.
    pub fn deep_clone(&self) -> (r: Self)
        ensures
            r == *self,
        decreases self,
    {
        match self {
            JsonItems::Empty => JsonItems::Empty,
            JsonItems::Cons(head, tail) => JsonItems::Cons(
                Box::new((**head).deep_clone()),
                Box::new((**tail).deep_clone()),
            ),
        }
    }
}

impl JsonMembers {
    /// A copy equal to `self`.
    pub fn deep_clone(&self) -> (r: Self)
        ensures
            r == *self,
        decreases self,
    {
        match self {
            JsonMembers::Empty => JsonMembers::Empty,
            JsonMembers::Cons(key, value, rest) => JsonMembers::Cons(
                key.clone(),
                Box::new((**value).deep_clone()),
                Box::new((**rest).deep_clone()),
            ),
        }
    }
}

/// The value stored under `key`: that of the first entry with that key.
pub open spec fn lookup(entries: Seq<(Seq<char>, JsonModel)>, key: Seq<char>) -> Option<JsonModel>
    decreases entries.len(),
{
    if entries.len() == 0 {
        None
    } else if entries[0].0 == key {
        Some(entries[0].1)
    } else {
        lookup(entries.drop_first(), key)
    }
}

pub proof fn lemma_lookup_at(entries: Seq<(Seq<char>, JsonModel)>, key: Seq<char>, i: int)
    requires
        0 <= i < entries.len(),
        entries[i].0 == key,
        forall|j: int| 0 <= j < i ==> #[trigger] entries[j].0 != key,
    ensures
        lookup(entries, key) == Some(entries[i].1),
    decreases i,
{
    if i > 0 {
        assert(entries[0].0 != key);
        lemma_lookup_at(entries.drop_first(), key, i - 1);
    }
}

pub proof fn lemma_lookup_absent(entries: Seq<(Seq<char>, JsonModel)>, key: Seq<char>)
    requires
        forall|j: int| 0 <= j < entries.len() ==> #[trigger] entries[j].0 != key,
    ensures
        lookup(entries, key) == None::<JsonModel>,
    decreases entries.len(),
{
    if entries.len() > 0 {
        assert(entries[0].0 != key);
        lemma_lookup_absent(entries.drop_first(), key);
    }
}

/// A view's free-form settings: a JSON object, keyed by setting name.
#[derive(Debug, Clone)]
pub struct Settings {
    entries: Vec<(String, JsonValue)>,
}

impl View for Settings {
    type V = Seq<(Seq<char>, JsonModel)>;

    closed spec fn view(&self) -> Seq<(Seq<char>, JsonModel)> {
        self.entries@.map_values(|e: (String, JsonValue)| (e.0@, e.1@))
    }
}

impl Settings {
    /// The value under `key`, in the model.
    pub open spec fn spec_get(&self, key: Seq<char>) -> Option<JsonModel> {
        lookup(self@, key)
    }

    /// No settings.
    pub fn new() -> (r: Self)
        ensures
            r@ == Seq::<(Seq<char>, JsonModel)>::empty(),
    {
        let r = Settings { entries: Vec::new() };
        assert(r@ =~= Seq::<(Seq<char>, JsonModel)>::empty());
        r
    }

    /// The entries, in order.
    pub fn entries(&self) -> (r: &Vec<(String, JsonValue)>)
        ensures
            r@.map_values(|e: (String, JsonValue)| (e.0@, e.1@)) == self@,
    {
        &self.entries
    }

    /// The position of the first entry under `key`.
    fn position(&self, key: &String) -> (r: Option<usize>)
        ensures
            match r {
                Some(i) => i < self@.len() && self@[i as int].0 == key@ && forall|j: int|
                    0 <= j < i ==> #[trigger] self@[j].0 != key@,
                None => forall|j: int| 0 <= j < self@.len() ==> #[trigger] self@[j].0 != key@,
            },
    {
        let mut i: usize = 0;
        while i < self.entries.len()
            invariant
                i <= self.entries@.len(),
                forall|j: int| 0 <= j < i ==> #[trigger] self@[j].0 != key@,
            decreases self.entries@.len() - i,
        {
            if self.entries[i].0 == *key {
                return Some(i);
            }
            i = i + 1;
        }
        None
    }

    /// `Map::get`: the value under `key`, if any.
    pub fn get(&self, key: &str) -> (r: Option<&JsonValue>)
        ensures
            match r {
                Some(v) => self.spec_get(key@) == Some(v@),
                None => self.spec_get(key@) is None,
            },
    {
        let k = key.to_owned();
        match self.position(&k) {
            Some(i) => {
                proof {
                    lemma_lookup_at(self@, key@, i as int);
                }
                Some(&self.entries[i].1)
            },
            None => {
                proof {
                    lemma_lookup_absent(self@, key@);
                }
                None
            },
        }
    }

    /// `Map::insert`: sets `key` to `value`, in place of its old value if it
    /// had one, else as a new last entry.
    pub fn insert(&mut self, key: String, value: JsonValue)
        ensures
            final(self).spec_get(key@) == Some(value@),
            forall|k: Seq<char>| k != key@ ==> #[trigger] final(self).spec_get(k) == old(
                self,
            ).spec_get(k),
            old(self).spec_get(key@) is Some ==> exists|i: int|
                0 <= i < old(self)@.len() && #[trigger] old(self)@[i].0 == key@ && final(self)@
                    == old(self)@.update(i, (key@, value@)),
            old(self).spec_get(key@) is None ==> final(self)@ == old(self)@.push((key@, value@)),
    {
        let ghost k = key@;
        let ghost v = value@;
        match self.position(&key) {
            Some(i) => {
                let ghost old_view = self@;
                self.entries.set(i, (key, value));
                proof {
                    assert(self@ =~= old_view.update(i as int, (k, v)));
                    assert(old_view[i as int].0 == k);
                    lemma_lookup_at(self@, k, i as int);
                    lemma_lookup_at(old_view, k, i as int);
                    assert forall|q: Seq<char>| q != k implies #[trigger] lookup(self@, q) == lookup(
                        old_view,
                        q,
                    ) by {
                        lemma_lookup_update(old_view, i as int, (k, v), q);
                    }
                }
            },
            None => {
                let ghost old_view = self@;
                self.entries.push((key, value));
                proof {
                    assert(self@ =~= old_view.push((k, v)));
                    lemma_lookup_absent(old_view, k);
                    lemma_lookup_at(self@, k, old_view.len() as int);
                    assert forall|q: Seq<char>| q != k implies #[trigger] lookup(self@, q) == lookup(
                        old_view,
                        q,
                    ) by {
                        lemma_lookup_push(old_view, (k, v), q);
                    }
                }
            },
        }
    }

    /// A copy with the same entries.
    pub fn deep_clone(&self) -> (r: Self)
        ensures
            r@ == self@,
    {
        let mut out: Vec<(String, JsonValue)> = Vec::new();
        let mut i: usize = 0;
        while i < self.entries.len()
            invariant
                i <= self.entries@.len(),
                out@.len() == i,
                forall|j: int| 0 <= j < i ==> #[trigger] out@[j].0@ == self.entries@[j].0@ && out@[j].1
                    == self.entries@[j].1,
            decreases self.entries@.len() - i,
        {
            out.push((self.entries[i].0.clone(), self.entries[i].1.deep_clone()));
            i = i + 1;
        }
        let r = Settings { entries: out };
        assert(r@ =~= self@);
        r
    }
}

proof fn lemma_lookup_update(
    entries: Seq<(Seq<char>, JsonModel)>,
    i: int,
    e: (Seq<char>, JsonModel),
    q: Seq<char>,
)
    requires
        0 <= i < entries.len(),
        entries[i].0 == e.0,
        q != e.0,
    ensures
        lookup(entries.update(i, e), q) == lookup(entries, q),
    decreases entries.len(),
{
    if i > 0 {
        assert(entries.update(i, e).drop_first() =~= entries.drop_first().update(i - 1, e));
        lemma_lookup_update(entries.drop_first(), i - 1, e, q);
    } else {
        assert(entries.update(i, e).drop_first() =~= entries.drop_first());
    }
}

proof fn lemma_lookup_push(entries: Seq<(Seq<char>, JsonModel)>, e: (Seq<char>, JsonModel), q: Seq<char>)
    requires
        q != e.0,
    ensures
        lookup(entries.push(e), q) == lookup(entries, q),
    decreases entries.len(),
{
    if entries.len() > 0 {
        assert(entries.push(e).drop_first() =~= entries.drop_first().push(e));
        lemma_lookup_push(entries.drop_first(), e, q);
    } else {
        assert(entries.push(e).drop_first() =~= entries);
    }
}

} // verus!
