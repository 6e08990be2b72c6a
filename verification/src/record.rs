//! The normalized record of a creature.
//!
//! A record is put together from two documents of the upstream service: the
//! primary document of the creature and the related document of its species.
//! It holds nine members that are picked from the two; nothing else of what
//! the upstream service sent is handed on.

use vstd::prelude::*;
use crate::json::{Json, JsonView, MemberView};

verus! {

/// The normalized record of a creature. A member that the upstream documents
/// lack is `Json::Null`.
#[derive(Debug, PartialEq, Eq)]
pub struct CreatureRecord {
    pub name: Json,
    pub image_url: Json,
    pub color: Json,
    pub types: Json,
    pub species: Json,
    pub id: Json,
    pub weight: Json,
    pub height: Json,
    pub abilities: Json,
}

/// The model of a [`CreatureRecord`].
pub ghost struct CreatureRecordView {
    pub name: JsonView,
    pub image_url: JsonView,
    pub color: JsonView,
    pub types: JsonView,
    pub species: JsonView,
    pub id: JsonView,
    pub weight: JsonView,
    pub height: JsonView,
    pub abilities: JsonView,
}

impl View for CreatureRecord {
    type V = CreatureRecordView;

    open spec fn view(&self) -> CreatureRecordView {
        CreatureRecordView {
            name: self.name@,
            image_url: self.image_url@,
            color: self.color@,
            types: self.types@,
            species: self.species@,
            id: self.id@,
            weight: self.weight@,
            height: self.height@,
            abilities: self.abilities@,
        }
    }
}

/// The record that the primary document of a creature and the related
/// document of its species give.
pub open spec fn assembled(primary: JsonView, related: JsonView) -> CreatureRecordView {
    CreatureRecordView {
        name: primary.at("name"@),
        image_url: primary.at("sprites"@).at("front_default"@),
        color: related.at("color"@).at("name"@),
        types: primary.at("types"@),
        species: primary.at("species"@),
        id: primary.at("id"@),
        weight: primary.at("weight"@),
        height: primary.at("height"@),
        abilities: primary.at("abilities"@),
    }
}

/// A record as a JSON object: its nine members under their names.
pub open spec fn record_document(record: CreatureRecordView) -> JsonView {
    JsonView::Object(
        seq![
            MemberView { key: "name"@, value: record.name },
            MemberView { key: "image_url"@, value: record.image_url },
            MemberView { key: "color"@, value: record.color },
            MemberView { key: "types"@, value: record.types },
            MemberView { key: "species"@, value: record.species },
            MemberView { key: "id"@, value: record.id },
            MemberView { key: "weight"@, value: record.weight },
            MemberView { key: "height"@, value: record.height },
            MemberView { key: "abilities"@, value: record.abilities },
        ],
    )
}

/// A copy of what `document` holds under `outer` and then under `inner`.
pub fn at_path(document: &Json, outer: &str, inner: &str) -> (value: Json)
    ensures
        value@ == document@.at(outer@).at(inner@),
{
    match document.get(outer) {
        Some(found) => found.at(inner),
        None => Json::Null,
    }
}

impl CreatureRecord {
    /// Puts the record together from the primary document of a creature and
    /// the related document of its species.
    pub fn assemble(primary: &Json, related: &Json) -> (record: CreatureRecord)
        ensures
            record@ == assembled(primary@, related@),
    {
        CreatureRecord {
            name: primary.at("name"),
            image_url: at_path(primary, "sprites", "front_default"),
            color: at_path(related, "color", "name"),
            types: primary.at("types"),
            species: primary.at("species"),
            id: primary.at("id"),
            weight: primary.at("weight"),
            height: primary.at("height"),
            abilities: primary.at("abilities"),
        }
    }

    /// A copy of this record.
    pub fn deep_copy(&self) -> (copy: CreatureRecord)
        ensures
            copy@ == self@,
    {
        CreatureRecord {
            name: self.name.deep_copy(),
            image_url: self.image_url.deep_copy(),
            color: self.color.deep_copy(),
            types: self.types.deep_copy(),
            species: self.species.deep_copy(),
            id: self.id.deep_copy(),
            weight: self.weight.deep_copy(),
            height: self.height.deep_copy(),
            abilities: self.abilities.deep_copy(),
        }
    }

    /// This record as a JSON object.
    pub fn to_json(&self) -> (document: Json)
        ensures
            document@ == record_document(self@),
    {
        let mut members: Vec<(String, Json)> = Vec::new();
        members.push(("name".to_owned(), self.name.deep_copy()));
        members.push(("image_url".to_owned(), self.image_url.deep_copy()));
        members.push(("color".to_owned(), self.color.deep_copy()));
        members.push(("types".to_owned(), self.types.deep_copy()));
        members.push(("species".to_owned(), self.species.deep_copy()));
        members.push(("id".to_owned(), self.id.deep_copy()));
        members.push(("weight".to_owned(), self.weight.deep_copy()));
        members.push(("height".to_owned(), self.height.deep_copy()));
        members.push(("abilities".to_owned(), self.abilities.deep_copy()));
        let document = Json::Object(members);
        assert(document@->Object_0 =~= record_document(self@)->Object_0);
        document
    }
}

impl Clone for CreatureRecord {
    fn clone(&self) -> (copy: CreatureRecord)
        ensures
            copy@ == self@,
    {
        self.deep_copy()
    }
}

/// A record that is written as an object can be read back: each of the nine
/// names finds the member of the record that it stands for.
pub proof fn lemma_record_document_members(record: CreatureRecordView)
    ensures
        record_document(record).at("name"@) == record.name,
        record_document(record).at("image_url"@) == record.image_url,
        record_document(record).at("color"@) == record.color,
        record_document(record).at("types"@) == record.types,
        record_document(record).at("species"@) == record.species,
        record_document(record).at("id"@) == record.id,
        record_document(record).at("weight"@) == record.weight,
        record_document(record).at("height"@) == record.height,
        record_document(record).at("abilities"@) == record.abilities,
{
    reveal_strlit("name");
    reveal_strlit("image_url");
    reveal_strlit("color");
    reveal_strlit("types");
    reveal_strlit("species");
    reveal_strlit("id");
    reveal_strlit("weight");
    reveal_strlit("height");
    reveal_strlit("abilities");
    reveal_with_fuel(crate::json::member, 10);
    // the nine names differ from one another: in their lengths,
    assert("name"@.len() == 4 && "image_url"@.len() == 9 && "color"@.len() == 5);
    assert("types"@.len() == 5 && "species"@.len() == 7 && "id"@.len() == 2);
    assert("weight"@.len() == 6 && "height"@.len() == 6 && "abilities"@.len() == 9);
    // and names of one length in their first letter
    assert("image_url"@[0] != "abilities"@[0]);
    assert("color"@[0] != "types"@[0]);
    assert("weight"@[0] != "height"@[0]);
    // the members, shortened from the end one by one
    let m9 = record_document(record)->Object_0;
    let m8 = m9.drop_last();
    let m7 = m8.drop_last();
    let m6 = m7.drop_last();
    let m5 = m6.drop_last();
    let m4 = m5.drop_last();
    let m3 = m4.drop_last();
    let m2 = m3.drop_last();
    let m1 = m2.drop_last();
    assert(m9.len() == 9 && m8.len() == 8 && m7.len() == 7 && m6.len() == 6 && m5.len() == 5);
    assert(m4.len() == 4 && m3.len() == 3 && m2.len() == 2 && m1.len() == 1);
}

} // verus!
