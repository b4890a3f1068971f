//! Named strings, such as the custom headers of a message.

use crate::json::{
    as_object, as_text, get_member, json_of, member_names, members_of, names_cover, new_object,
    object_value, set_member, text_value, Json, Members, Mismatch,
};
use crate::wire::{FromJson, RoundTrip, ToJson};
use serde_json::Value;
use vstd::prelude::*;

verus! {

/// Strings under names. The entries are kept in the order in which they were
/// added; where a name occurs more than once, its last entry counts.
#[derive(Debug)]
pub struct StringMap {
    pub entries: Vec<(String, String)>,
}

/// The string that each name stands for, after the entries of `pairs` were
/// applied in their order.
pub open spec fn named_texts(pairs: Seq<(String, String)>) -> Map<Seq<char>, Seq<char>>
    decreases pairs.len(),
{
    if pairs.len() == 0 {
        Map::empty()
    } else {
        named_texts(pairs.drop_last()).insert(pairs.last().0@, pairs.last().1@)
    }
}

/// The object whose members are the given strings under their names.
pub open spec fn text_members(texts: Map<Seq<char>, Seq<char>>) -> Members {
    texts.map_values(|t: Seq<char>| Json::Text(t))
}

/// Applying one more entry sets one more member.
pub proof fn lemma_named_texts_push(pairs: Seq<(String, String)>, pair: (String, String))
    ensures
        named_texts(pairs.push(pair)) == named_texts(pairs).insert(pair.0@, pair.1@),
        text_members(named_texts(pairs.push(pair))) == text_members(named_texts(pairs)).insert(
            pair.0@,
            Json::Text(pair.1@),
        ),
{
    assert(pairs.push(pair).drop_last() == pairs);
    assert(text_members(named_texts(pairs).insert(pair.0@, pair.1@)) =~= text_members(
        named_texts(pairs),
    ).insert(pair.0@, Json::Text(pair.1@)));
}

impl StringMap {
    /// The string that each name stands for.
    pub open spec fn view(&self) -> Map<Seq<char>, Seq<char>> {
        named_texts(self.entries@)
    }

    /// No strings at all.
    pub fn new() -> (map: StringMap)
        ensures
            map@ == Map::<Seq<char>, Seq<char>>::empty(),
    {
        StringMap { entries: Vec::new() }
    }

    /// Puts `text` under `name`, in place of what the name stood for.
    pub fn insert(&mut self, name: String, text: String)
        ensures
            final(self)@ == old(self)@.insert(name@, text@),
    {
        proof {
            lemma_named_texts_push(self.entries@, (name, text));
        }
        self.entries.push((name, text));
    }
}

impl ToJson for StringMap {
    /// An object with one string member for each name.
    open spec fn wire(&self) -> Json {
        Json::Object(text_members(self@))
    }

    fn to_json(&self) -> (value: Value) {
        let mut o = new_object();
        let mut i: usize = 0;
        assert(self.entries@.subrange(0, 0) =~= Seq::empty());
        assert(text_members(named_texts(Seq::empty())) =~= Members::empty());
        while i < self.entries.len()
            invariant
                i <= self.entries.len(),
                members_of(o) == text_members(named_texts(self.entries@.subrange(0, i as int))),
            decreases self.entries.len() - i,
        {
            proof {
                lemma_named_texts_push(
                    self.entries@.subrange(0, i as int),
                    self.entries@[i as int],
                );
                assert(self.entries@.subrange(0, i as int).push(self.entries@[i as int])
                    =~= self.entries@.subrange(0, i + 1));
            }
            let entry = &self.entries[i];
            set_member(&mut o, entry.0.as_str(), text_value(entry.1.clone()));
            i += 1;
        }
        assert(self.entries@.subrange(0, i as int) =~= self.entries@);
        object_value(o)
    }
}

/// Whether every entry of `pairs` is a member of `object` with the same text.
pub open spec fn entries_within(pairs: Seq<(String, String)>, object: Members) -> bool {
    forall|j: int|
        0 <= j < pairs.len() ==> {
            &&& object.contains_key((#[trigger] pairs[j]).0@)
            &&& object[pairs[j].0@] == Json::Text(pairs[j].1@)
        }
}

/// Entries that are all members of an object stand for a part of that object:
/// each name of an entry is there, and nothing else is.
pub proof fn lemma_named_texts_within(pairs: Seq<(String, String)>, object: Members)
    requires
        entries_within(pairs, object),
    ensures
        forall|j: int|
            0 <= j < pairs.len() ==> named_texts(pairs).contains_key(#[trigger] pairs[j].0@),
        forall|key: Seq<char>| #[trigger]
            named_texts(pairs).contains_key(key) ==> object.contains_key(key) && object[key]
                == Json::Text(named_texts(pairs)[key]),
    decreases pairs.len(),
{
    if pairs.len() > 0 {
        let rest = pairs.drop_last();
        assert forall|j: int| 0 <= j < rest.len() implies object.contains_key(
            (#[trigger] rest[j]).0@,
        ) && object[rest[j].0@] == Json::Text(rest[j].1@) by {
            assert(rest[j] == pairs[j]);
        }
        lemma_named_texts_within(rest, object);
        assert forall|j: int| 0 <= j < pairs.len() implies named_texts(pairs).contains_key(
            #[trigger] pairs[j].0@,
        ) by {
            if j < rest.len() {
                assert(rest[j] == pairs[j]);
            }
        }
        let last = pairs[pairs.len() - 1];
        assert(pairs.last() == last);
        assert(named_texts(pairs) == named_texts(rest).insert(last.0@, last.1@));
        assert forall|key: Seq<char>| #[trigger]
            named_texts(pairs).contains_key(key) implies object.contains_key(key) && object[key]
            == Json::Text(named_texts(pairs)[key]) by {
            if key != last.0@ {
                assert(named_texts(rest).contains_key(key));
            }
        }
    }
}

/// Whether every member of an object is a string.
pub open spec fn all_text(object: Members) -> bool {
    forall|key: Seq<char>| #[trigger] object.contains_key(key) ==> object[key] is Text
}

impl FromJson for StringMap {
    /// An object whose members are all strings.
    open spec fn readable(document: Json) -> bool {
        document matches Json::Object(o) && all_text(o)
    }

    /// The names are the keys of the object, and each stands for the text of
    /// its member.
    open spec fn read_from(&self, document: Json) -> bool {
        document == Json::Object(text_members(self@))
    }

    fn from_json(value: &Value) -> (outcome: Result<StringMap, Mismatch>) {
        let o = match as_object(value) {
            Some(o) => o,
            None => { return Err(Mismatch); },
        };
        let names = member_names(o);
        let mut entries: Vec<(String, String)> = Vec::new();
        let mut i: usize = 0;
        while i < names.len()
            invariant
                i <= names.len(),
                entries.len() == i,
                names_cover(names@, members_of(*o)),
                json_of(*value) == Json::Object(members_of(*o)),
                entries_within(entries@, members_of(*o)),
                forall|j: int| 0 <= j < i ==> (#[trigger] entries[j]).0@ == names[j]@,
            decreases names.len() - i,
        {
            let name = names[i].clone();
            let text = match get_member(o, name.as_str()) {
                Some(v) => match as_text(v) {
                    Some(t) => t.to_owned(),
                    None => {
                        assert(members_of(*o).contains_key(name@));
                        assert(!all_text(members_of(*o)));
                        return Err(Mismatch);
                    },
                },
                None => {
                    assert(members_of(*o).contains_key(names[i as int]@));
                    return Err(Mismatch);
                },
            };
            entries.push((name, text));
            i += 1;
        }
        proof {
            let members = members_of(*o);
            lemma_named_texts_within(entries@, members);
            assert forall|key: Seq<char>| #[trigger] members.contains_key(key) implies named_texts(
                entries@,
            ).contains_key(key) by {
                let j = choose|j: int| 0 <= j < names.len() && names[j]@ == key;
                assert(entries[j].0@ == key);
            }
            assert(text_members(named_texts(entries@)) =~= members);
            assert forall|key: Seq<char>| #[trigger]
                members.contains_key(key) implies members[key] is Text by {
                assert(named_texts(entries@).contains_key(key));
            }
        }
        Ok(StringMap { entries })
    }
}

impl RoundTrip for StringMap {
    proof fn lemma_reads_back(&self) {
    }
}

} // verus!
