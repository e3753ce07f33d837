use vstd::prelude::*;
use crate::error::Error;
use crate::json::{
    json_of, lemma_obj_lookup_absent, lemma_obj_lookup_found, lookup, obj_lookup, parse_json, Json,
};
use crate::strutil::str_eq;

verus! {

/// Display metadata of an item.
#[derive(Debug, Clone, PartialEq, Eq)]
pub struct OpItemOverview {
    pub ainfo: String,
    pub title: String,
}

/// One named field of an item in the field-list shape.
#[derive(Debug, Clone, PartialEq, Eq)]
pub struct OpItemField {
    pub designation: Option<String>,
    pub name: String,
    pub field_type: String,
    pub value: String,
}

/// The two shapes an item's details can take: a direct password, or a list
/// of named fields. Which shape applies is read off the JSON structurally.
#[derive(Debug, Clone, PartialEq, Eq)]
pub enum OpItemDetails {
    Password { password: String },
    Login { fields: Vec<OpItemField> },
}

/// An item as the tool reports one.
#[derive(Debug, Clone, PartialEq, Eq)]
pub struct OpItem {
    pub uuid: String,
    pub vault_uuid: String,
    pub changer_uuid: String,
    pub overview: OpItemOverview,
    pub details: OpItemDetails,
}

/// Mathematical model of `OpItemOverview`.
#[verifier::ext_equal]
pub struct OverviewView {
    pub ainfo: Seq<char>,
    pub title: Seq<char>,
}

/// Mathematical model of `OpItemField`.
#[verifier::ext_equal]
pub struct FieldView {
    pub designation: Option<Seq<char>>,
    pub name: Seq<char>,
    pub field_type: Seq<char>,
    pub value: Seq<char>,
}

/// Mathematical model of `OpItemDetails`.
#[verifier::ext_equal]
pub enum DetailsView {
    Password { password: Seq<char> },
    Login { fields: Seq<FieldView> },
}

/// Mathematical model of `OpItem`.
#[verifier::ext_equal]
pub struct ItemView {
    pub uuid: Seq<char>,
    pub vault_uuid: Seq<char>,
    pub changer_uuid: Seq<char>,
    pub overview: OverviewView,
    pub details: DetailsView,
}

impl View for OpItemOverview {
    type V = OverviewView;

    open spec fn view(&self) -> OverviewView {
        OverviewView { ainfo: self.ainfo@, title: self.title@ }
    }
}

impl View for OpItemField {
    type V = FieldView;

    open spec fn view(&self) -> FieldView {
        FieldView {
            designation: match self.designation {
                Some(d) => Some(d@),
                None => None,
            },
            name: self.name@,
            field_type: self.field_type@,
            value: self.value@,
        }
    }
}

impl View for OpItemDetails {
    type V = DetailsView;

    open spec fn view(&self) -> DetailsView {
        match self {
            OpItemDetails::Password { password } => DetailsView::Password { password: password@ },
            OpItemDetails::Login { fields } => DetailsView::Login {
                fields: fields@.map_values(|f: OpItemField| f@),
            },
        }
    }
}

impl View for OpItem {
    type V = ItemView;

    open spec fn view(&self) -> ItemView {
        ItemView {
            uuid: self.uuid@,
            vault_uuid: self.vault_uuid@,
            changer_uuid: self.changer_uuid@,
            overview: self.overview@,
            details: self.details@,
        }
    }
}

/// The field that a JSON value describes, if it fits the field schema: an
/// object with string entries "name", "type" and "value", and an optional
/// "designation" that is a string or null.
pub open spec fn spec_field_of_json(j: Json) -> Option<FieldView> {
    match j {
        Json::Obj(entries) => match (
            obj_lookup(entries@, "name"@),
            obj_lookup(entries@, "type"@),
            obj_lookup(entries@, "value"@),
        ) {
            (Some(Json::Str(name)), Some(Json::Str(ftype)), Some(Json::Str(value))) => match obj_lookup(
                entries@,
                "designation"@,
            ) {
                None => Some(
                    FieldView { designation: None, name: name@, field_type: ftype@, value: value@ },
                ),
                Some(Json::Null) => Some(
                    FieldView { designation: None, name: name@, field_type: ftype@, value: value@ },
                ),
                Some(Json::Str(d)) => Some(
                    FieldView {
                        designation: Some(d@),
                        name: name@,
                        field_type: ftype@,
                        value: value@,
                    },
                ),
                Some(_) => None,
            },
            _ => None,
        },
        _ => None,
    }
}

/// Whether every element of a JSON array fits the field schema.
pub open spec fn fields_ok(elems: Seq<Json>) -> bool {
    forall|i: int| 0 <= i < elems.len() ==> spec_field_of_json(elems[i]) is Some
}

/// The fields described by a JSON array whose elements all fit the field
/// schema.
pub open spec fn fields_views(elems: Seq<Json>) -> Seq<FieldView> {
    Seq::new(elems.len(), |i: int| spec_field_of_json(elems[i]).unwrap())
}

/// The details that a JSON value describes. The shape is resolved
/// structurally: an object with a string entry "password" is the direct
/// password shape; failing that, an object with an entry "fields" holding an
/// array of field objects is the field-list shape; anything else fits
/// neither shape.
pub open spec fn spec_details_of_json(j: Json) -> Option<DetailsView> {
    match j {
        Json::Obj(entries) => match obj_lookup(entries@, "password"@) {
            Some(Json::Str(p)) => Some(DetailsView::Password { password: p@ }),
            _ => match obj_lookup(entries@, "fields"@) {
                Some(Json::Arr(elems)) => if fields_ok(elems@) {
                    Some(DetailsView::Login { fields: fields_views(elems@) })
                } else {
                    None
                },
                _ => None,
            },
        },
        _ => None,
    }
}

/// The overview that a JSON value describes: an object with string entries
/// "ainfo" and "title".
pub open spec fn spec_overview_of_json(j: Json) -> Option<OverviewView> {
    match j {
        Json::Obj(entries) => match (obj_lookup(entries@, "ainfo"@), obj_lookup(entries@, "title"@)) {
            (Some(Json::Str(a)), Some(Json::Str(t))) => Some(
                OverviewView { ainfo: a@, title: t@ },
            ),
            _ => None,
        },
        _ => None,
    }
}

/// The item that a JSON document describes: an object with string entries
/// "uuid", "vaultUuid" and "changerUuid", an "overview" object and a
/// "details" object of one of the two detail shapes.
pub open spec fn spec_item_of_json(j: Json) -> Option<ItemView> {
    match j {
        Json::Obj(entries) => match (
            obj_lookup(entries@, "uuid"@),
            obj_lookup(entries@, "vaultUuid"@),
            obj_lookup(entries@, "changerUuid"@),
            obj_lookup(entries@, "overview"@),
            obj_lookup(entries@, "details"@),
        ) {
            (Some(Json::Str(u)), Some(Json::Str(v)), Some(Json::Str(c)), Some(ov), Some(de)) => match (
                spec_overview_of_json(ov),
                spec_details_of_json(de),
            ) {
                (Some(o), Some(d)) => Some(
                    ItemView {
                        uuid: u@,
                        vault_uuid: v@,
                        changer_uuid: c@,
                        overview: o,
                        details: d,
                    },
                ),
                _ => None,
            },
            _ => None,
        },
        _ => None,
    }
}

/// Reads one field object.
fn field_of_json(j: &Json) -> (r: Option<OpItemField>)
    ensures
        match r {
            Some(f) => spec_field_of_json(*j) == Some(f@),
            None => spec_field_of_json(*j) is None,
        },
{
    match j {
        Json::Obj(entries) => {
            let name = match lookup(entries, "name") {
                Some(Json::Str(s)) => s.clone(),
                _ => {
                    return None;
                },
            };
            let ftype = match lookup(entries, "type") {
                Some(Json::Str(s)) => s.clone(),
                _ => {
                    return None;
                },
            };
            let value = match lookup(entries, "value") {
                Some(Json::Str(s)) => s.clone(),
                _ => {
                    return None;
                },
            };
            let designation = match lookup(entries, "designation") {
                None => None,
                Some(Json::Null) => None,
                Some(Json::Str(d)) => Some(d.clone()),
                Some(_) => {
                    return None;
                },
            };
            Some(OpItemField { designation, name, field_type: ftype, value })
        },
        _ => None,
    }
}

/// Reads an array of field objects.
fn fields_of_json(elems: &Vec<Json>) -> (r: Option<Vec<OpItemField>>)
    ensures
        match r {
            Some(fs) => fields_ok(elems@) && fs@.map_values(|f: OpItemField| f@) == fields_views(
                elems@,
            ),
            None => !fields_ok(elems@),
        },
{
    let n: usize = elems.len();
    let mut out: Vec<OpItemField> = Vec::new();
    let mut i: usize = 0;
    while i < n
        invariant
            i <= n,
            n == elems@.len(),
            out@.len() == i,
            forall|k: int|
                0 <= k < i ==> #[trigger] spec_field_of_json(elems@[k]) is Some && out@[k]@
                    == spec_field_of_json(elems@[k]).unwrap(),
        decreases n - i,
    {
        let f = match field_of_json(&elems[i]) {
            Some(f) => f,
            None => {
                proof {
                    assert(spec_field_of_json(elems@[i as int]) is None);
                }
                return None;
            },
        };
        let ghost prev = out@;
        out.push(f);
        i = i + 1;
        proof {
            assert forall|k: int|
                0 <= k < i implies #[trigger] spec_field_of_json(elems@[k]) is Some && out@[k]@
                == spec_field_of_json(elems@[k]).unwrap() by {
                if k < i - 1 {
                    assert(out@[k] == prev[k]);
                    assert(prev[k]@ == spec_field_of_json(elems@[k]).unwrap());
                } else {
                    assert(out@[k] == f);
                }
            }
        }
    }
    proof {
        assert(out@.map_values(|f: OpItemField| f@) =~= fields_views(elems@));
    }
    Some(out)
}

/// Reads a details object, resolving which of the two shapes is present.
fn details_of_json(j: &Json) -> (r: Option<OpItemDetails>)
    ensures
        match r {
            Some(d) => spec_details_of_json(*j) == Some(d@),
            None => spec_details_of_json(*j) is None,
        },
{
    match j {
        Json::Obj(entries) => match lookup(entries, "password") {
            Some(Json::Str(p)) => Some(OpItemDetails::Password { password: p.clone() }),
            _ => match lookup(entries, "fields") {
                Some(Json::Arr(elems)) => match fields_of_json(elems) {
                    Some(fs) => Some(OpItemDetails::Login { fields: fs }),
                    None => None,
                },
                _ => None,
            },
        },
        _ => None,
    }
}

/// Reads an overview object.
fn overview_of_json(j: &Json) -> (r: Option<OpItemOverview>)
    ensures
        match r {
            Some(o) => spec_overview_of_json(*j) == Some(o@),
            None => spec_overview_of_json(*j) is None,
        },
{
    match j {
        Json::Obj(entries) => {
            let ainfo = match lookup(entries, "ainfo") {
                Some(Json::Str(s)) => s.clone(),
                _ => {
                    return None;
                },
            };
            let title = match lookup(entries, "title") {
                Some(Json::Str(s)) => s.clone(),
                _ => {
                    return None;
                },
            };
            Some(OpItemOverview { ainfo, title })
        },
        _ => None,
    }
}

/// Reads an item from a parsed JSON document; a document that does not fit
/// the item schema is rejected.
pub fn item_of_json(j: &Json) -> (r: Result<OpItem, Error>)
    ensures
        match spec_item_of_json(*j) {
            Some(iv) => r matches Ok(item) && item@ == iv,
            None => r == Err::<OpItem, Error>(Error::InvalidItem),
        },
{
    match j {
        Json::Obj(entries) => {
            let uuid = match lookup(entries, "uuid") {
                Some(Json::Str(s)) => s.clone(),
                _ => {
                    return Err(Error::InvalidItem);
                },
            };
            let vault_uuid = match lookup(entries, "vaultUuid") {
                Some(Json::Str(s)) => s.clone(),
                _ => {
                    return Err(Error::InvalidItem);
                },
            };
            let changer_uuid = match lookup(entries, "changerUuid") {
                Some(Json::Str(s)) => s.clone(),
                _ => {
                    return Err(Error::InvalidItem);
                },
            };
            let overview = match lookup(entries, "overview") {
                Some(ov) => match overview_of_json(ov) {
                    Some(o) => o,
                    None => {
                        return Err(Error::InvalidItem);
                    },
                },
                None => {
                    return Err(Error::InvalidItem);
                },
            };
            let details = match lookup(entries, "details") {
                Some(de) => match details_of_json(de) {
                    Some(d) => d,
                    None => {
                        return Err(Error::InvalidItem);
                    },
                },
                None => {
                    return Err(Error::InvalidItem);
                },
            };
            Ok(OpItem { uuid, vault_uuid, changer_uuid, overview, details })
        },
        _ => Err(Error::InvalidItem),
    }
}

/// Parses bytes as the JSON document of one item: the composition of the
/// JSON parse and the schema read.
pub fn parse_item(bytes: &[u8]) -> (r: Result<OpItem, Error>)
    ensures
        match json_of(bytes@) {
            None => r matches Err(e) && e matches Error::JsonParse(_),
            Some(j) => match spec_item_of_json(j) {
                Some(iv) => r matches Ok(item) && item@ == iv,
                None => r == Err::<OpItem, Error>(Error::InvalidItem),
            },
        },
{
    match parse_json(bytes) {
        Ok(j) => item_of_json(&j),
        Err(m) => Err(Error::JsonParse(m)),
    }
}

/// The password a field list yields: the value of its first field whose
/// designation reads "password", if any.
pub open spec fn spec_find_password(fields: Seq<FieldView>) -> Option<Seq<char>>
    decreases fields.len(),
{
    if fields.len() == 0 {
        None
    } else if fields[0].designation == Some("password"@) {
        Some(fields[0].value)
    } else {
        spec_find_password(fields.drop_first())
    }
}

/// The password an item's details yield: the direct password for the
/// password shape, else what the field list yields.
pub open spec fn spec_password(d: DetailsView) -> Option<Seq<char>> {
    match d {
        DetailsView::Password { password } => Some(password),
        DetailsView::Login { fields } => spec_find_password(fields),
    }
}

impl OpItem {
    /// Returns the password of this item if any: the direct password when
    /// the details are the password shape, else the value of the first field
    /// designated "password", else nothing. Absence is no error.
    pub fn password(&self) -> (r: Option<String>)
        ensures
            match r {
                Some(p) => spec_password(self@.details) == Some(p@),
                None => spec_password(self@.details) is None,
            },
    {
        match &self.details {
            OpItemDetails::Password { password } => Some(password.clone()),
            OpItemDetails::Login { fields } => {
                let ghost fviews = fields@.map_values(|f: OpItemField| f@);
                proof {
                    assert(fviews.skip(0) =~= fviews);
                }
                let n: usize = fields.len();
                let mut i: usize = 0;
                while i < n
                    invariant
                        i <= n,
                        n == fields@.len(),
                        fviews == fields@.map_values(|f: OpItemField| f@),
                        self@.details == (DetailsView::Login { fields: fviews }),
                        spec_find_password(fviews) == spec_find_password(fviews.skip(i as int)),
                    decreases n - i,
                {
                    proof {
                        assert(fviews.skip(i as int)[0] == fviews[i as int]);
                        assert(fviews[i as int] == fields@[i as int]@);
                    }
                    let is_pw = match &fields[i].designation {
                        Some(d) => str_eq(d.as_str(), "password"),
                        None => false,
                    };
                    if is_pw {
                        proof {
                            assert(spec_find_password(fviews.skip(i as int)) == Some(
                                fviews[i as int].value,
                            ));
                        }
                        return Some(fields[i].value.clone());
                    }
                    proof {
                        assert(fviews.skip(i as int).drop_first() =~= fviews.skip(i as int + 1));
                    }
                    i = i + 1;
                }
                None
            },
        }
    }
}

/// Renders one field as its JSON object; an absent designation is rendered
/// as null, as the tool does.
fn field_to_json(f: &OpItemField) -> (j: Json)
    ensures
        spec_field_of_json(j) == Some(f@),
{
    let des: Json = match &f.designation {
        Some(d) => Json::Str(d.clone()),
        None => Json::Null,
    };
    let mut entries: Vec<(String, Json)> = Vec::new();
    entries.push(("designation".to_owned(), des));
    entries.push(("name".to_owned(), Json::Str(f.name.clone())));
    entries.push(("type".to_owned(), Json::Str(f.field_type.clone())));
    entries.push(("value".to_owned(), Json::Str(f.value.clone())));
    let j = Json::Obj(entries);
    proof {
        reveal_strlit("designation");
        reveal_strlit("name");
        reveal_strlit("type");
        reveal_strlit("value");
        let evs = j->Obj_0@;
        assert(evs.len() == 4);
        assert(evs[0].0@ == "designation"@ && evs[1].0@ == "name"@ && evs[2].0@ == "type"@
            && evs[3].0@ == "value"@);
        assert("name"@[0] != "type"@[0]);
        lemma_obj_lookup_found(evs, "designation"@, 0);
        lemma_obj_lookup_found(evs, "name"@, 1);
        lemma_obj_lookup_found(evs, "type"@, 2);
        lemma_obj_lookup_found(evs, "value"@, 3);
        assert(spec_field_of_json(j) == Some(f@));
    }
    j
}

/// Renders details as their JSON object, in the shape they carry.
fn details_to_json(d: &OpItemDetails) -> (j: Json)
    ensures
        spec_details_of_json(j) == Some(d@),
{
    match d {
        OpItemDetails::Password { password } => {
            let mut entries: Vec<(String, Json)> = Vec::new();
            entries.push(("password".to_owned(), Json::Str(password.clone())));
            let j = Json::Obj(entries);
            proof {
                reveal_strlit("password");
                let evs = j->Obj_0@;
                assert(evs[0].0@ == "password"@);
                lemma_obj_lookup_found(evs, "password"@, 0);
                assert(spec_details_of_json(j) == Some(d@));
            }
            j
        },
        OpItemDetails::Login { fields } => {
            let n: usize = fields.len();
            let mut elems: Vec<Json> = Vec::new();
            let mut i: usize = 0;
            while i < n
                invariant
                    i <= n,
                    n == fields@.len(),
                    elems@.len() == i,
                    forall|k: int|
                        0 <= k < i ==> #[trigger] spec_field_of_json(elems@[k]) == Some(
                            fields@[k]@,
                        ),
                decreases n - i,
            {
                let fj = field_to_json(&fields[i]);
                elems.push(fj);
                i = i + 1;
            }
            let ghost earr = elems@;
            let mut entries: Vec<(String, Json)> = Vec::new();
            entries.push(("fields".to_owned(), Json::Arr(elems)));
            let j = Json::Obj(entries);
            proof {
                reveal_strlit("fields");
                reveal_strlit("password");
                let evs = j->Obj_0@;
                assert(evs.len() == 1);
                assert(evs[0].0@ == "fields"@);
                lemma_obj_lookup_absent(evs, "password"@);
                lemma_obj_lookup_found(evs, "fields"@, 0);
                assert(evs[0].1->Arr_0@ == earr);
                assert(fields_ok(earr));
                assert(fields_views(earr) =~= fields@.map_values(|f: OpItemField| f@));
                assert(spec_details_of_json(j) == Some(d@));
            }
            j
        },
    }
}

/// Renders an overview as its JSON object.
fn overview_to_json(o: &OpItemOverview) -> (j: Json)
    ensures
        spec_overview_of_json(j) == Some(o@),
{
    let mut entries: Vec<(String, Json)> = Vec::new();
    entries.push(("ainfo".to_owned(), Json::Str(o.ainfo.clone())));
    entries.push(("title".to_owned(), Json::Str(o.title.clone())));
    let j = Json::Obj(entries);
    proof {
        reveal_strlit("ainfo");
        reveal_strlit("title");
        let evs = j->Obj_0@;
        assert(evs.len() == 2);
        assert(evs[0].0@ == "ainfo"@ && evs[1].0@ == "title"@);
        assert("ainfo"@[0] != "title"@[0]);
        lemma_obj_lookup_found(evs, "ainfo"@, 0);
        lemma_obj_lookup_found(evs, "title"@, 1);
        assert(spec_overview_of_json(j) == Some(o@));
    }
    j
}

impl OpItem {
    /// Renders this item as the JSON document shape the tool prints. Reading
    /// the result back always yields this very item, whichever shape the
    /// details carry: together with `item_of_json` this is the schema's
    /// round trip.
    pub fn to_json(&self) -> (j: Json)
        ensures
            spec_item_of_json(j) == Some(self@),
    {
        let ov = overview_to_json(&self.overview);
        let de = details_to_json(&self.details);
        let mut entries: Vec<(String, Json)> = Vec::new();
        entries.push(("uuid".to_owned(), Json::Str(self.uuid.clone())));
        entries.push(("vaultUuid".to_owned(), Json::Str(self.vault_uuid.clone())));
        entries.push(("changerUuid".to_owned(), Json::Str(self.changer_uuid.clone())));
        entries.push(("overview".to_owned(), ov));
        entries.push(("details".to_owned(), de));
        let j = Json::Obj(entries);
        proof {
            reveal_strlit("uuid");
            reveal_strlit("vaultUuid");
            reveal_strlit("changerUuid");
            reveal_strlit("overview");
            reveal_strlit("details");
            let evs = j->Obj_0@;
            assert(evs.len() == 5);
            assert(evs[0].0@ == "uuid"@ && evs[1].0@ == "vaultUuid"@ && evs[2].0@
                == "changerUuid"@ && evs[3].0@ == "overview"@ && evs[4].0@ == "details"@);
            lemma_obj_lookup_found(evs, "uuid"@, 0);
            lemma_obj_lookup_found(evs, "vaultUuid"@, 1);
            lemma_obj_lookup_found(evs, "changerUuid"@, 2);
            lemma_obj_lookup_found(evs, "overview"@, 3);
            lemma_obj_lookup_found(evs, "details"@, 4);
            assert(spec_item_of_json(j) == Some(self@));
        }
        j
    }
}

} // verus!
