//! One practice item as one JSON record: a field-named object of strings.
//!
//! The JSON text is serde_json's and the timestamp text is chrono's RFC 3339;
//! which fields a record holds and how they are read back is decided here.
use crate::music::{same_text, Key, Practice, PracticeType, Rythm, Scale, SpacedRepetition};
use crate::time::Timestamp;
use vstd::prelude::*;

verus! {

/// Why an item could not be written or read as a record.
#[derive(Clone, Copy, Debug, PartialEq, Eq, Structural)]
pub enum RecordError {
    /// A timestamp lies outside the range that can be written as a date.
    TimestampOutOfRange,
    /// The text is not a JSON object.
    Malformed,
    /// A field is absent, or its value is not a string.
    MissingField,
    /// A field names no variant of its enumeration.
    UnknownName,
    /// A timestamp field is not an RFC 3339 date and time.
    BadTimestamp,
}

/// The RFC 3339 text of the point in time `secs` seconds and `nanos`
/// nanoseconds after the Unix epoch, where it is a representable date.
pub uninterp spec fn rfc3339_of(secs: i64, nanos: u32) -> Option<Seq<char>>;

/// The point in time that an RFC 3339 text denotes, as seconds and subsecond
/// nanoseconds since the Unix epoch.
pub uninterp spec fn rfc3339_parse(s: Seq<char>) -> Option<(i64, u32)>;

/// The JSON text of an object with these string fields.
pub uninterp spec fn json_object_of(fields: Seq<(Seq<char>, Seq<char>)>) -> Seq<char>;

/// The fields of the JSON object in `text`, each with its value where that
/// is a string.
pub uninterp spec fn json_fields_of(text: Seq<char>) -> Option<Seq<(Seq<char>, Option<Seq<char>>)>>;

/// Relies on chrono's DateTime::from_timestamp, which is `None` for an
/// unrepresentable date, and DateTime::to_rfc3339 for its text.
#[verifier::external_body]
fn rfc3339_text(t: Timestamp) -> (r: Option<String>)
    ensures
        r.deep_view() == rfc3339_of(t.secs, t.nanos),
{
    match chrono::DateTime::from_timestamp(t.secs, t.nanos) {
        Some(d) => Some(d.to_rfc3339()),
        None => None,
    }
}

/// Relies on chrono's DateTime::parse_from_rfc3339, read back through
/// DateTime::timestamp and DateTime::timestamp_subsec_nanos.
#[verifier::external_body]
fn parse_rfc3339(s: &str) -> (r: Option<Timestamp>)
    ensures
        r == (match rfc3339_parse(s@) {
            Some(p) => Some(Timestamp { secs: p.0, nanos: p.1 }),
            None => None::<Timestamp>,
        }),
{
    match chrono::DateTime::parse_from_rfc3339(s) {
        Ok(d) => Some(Timestamp { secs: d.timestamp(), nanos: d.timestamp_subsec_nanos() }),
        Err(_) => None,
    }
}

/// Relies on serde_json::to_string, applied to a serde_json::Map of string
/// values: it fails only where a value fails to serialize or a map key is not
/// a string, neither of which can happen here.
#[verifier::external_body]
fn json_object_text(fields: &Vec<(String, String)>) -> (r: Option<String>)
    ensures
        r is Some && r->Some_0@ == json_object_of(fields.deep_view()),
{
    let m: serde_json::Map<String, serde_json::Value> = fields
        .iter()
        .map(|(k, v)| (k.clone(), serde_json::Value::String(v.clone())))
        .collect();
    serde_json::to_string(&m).ok()
}

/// Relies on serde_json::from_str into a serde_json::Map, and on
/// serde_json::Value::as_str for each value.
#[verifier::external_body]
fn json_fields(text: &str) -> (r: Option<Vec<(String, Option<String>)>>)
    ensures
        r.deep_view() == json_fields_of(text@),
{
    match serde_json::from_str::<serde_json::Map<String, serde_json::Value>>(text) {
        Ok(m) => Some(m.iter().map(|(k, v)| (k.clone(), v.as_str().map(str::to_owned))).collect()),
        Err(_) => None,
    }
}

/// The value of the first field named `name`, where it is a string.
pub open spec fn field_text(fields: Seq<(Seq<char>, Option<Seq<char>>)>, name: Seq<char>) -> Option<Seq<char>>
    decreases fields.len(),
{
    if fields.len() == 0 {
        None
    } else if fields[0].0 == name {
        fields[0].1
    } else {
        field_text(fields.drop_first(), name)
    }
}

/// The fields of an item whose timestamps are written `created` and `last`.
pub open spec fn encode_fields(p: Practice, created: Seq<char>, last: Seq<char>) -> Seq<(Seq<char>, Seq<char>)> {
    seq![
        ("practice_type"@, p.practice_type.name_spec()),
        ("scale"@, p.scale.name_spec()),
        ("key"@, p.key.name_spec()),
        ("rythm"@, p.rythm.name_spec()),
        ("created"@, created),
        ("repetition_lvl"@, p.repetition_lvl.name_spec()),
        ("last_practiced"@, last),
    ]
}

/// The fields of an item, or why its timestamps cannot be written.
pub open spec fn fields_spec(p: Practice) -> Result<Seq<(Seq<char>, Seq<char>)>, RecordError> {
    match (rfc3339_of(p.created.secs, p.created.nanos), rfc3339_of(p.last_practiced.secs, p.last_practiced.nanos)) {
        (Some(c), Some(l)) => Ok(encode_fields(p, c, l)),
        _ => Err(RecordError::TimestampOutOfRange),
    }
}

/// Fields as they are read back: every value a string.
pub open spec fn as_read(fields: Seq<(Seq<char>, Seq<char>)>) -> Seq<(Seq<char>, Option<Seq<char>>)> {
    Seq::new(fields.len(), |i: int| (fields[i].0, Some(fields[i].1)))
}

/// The point in time that a parsed timestamp stands for.
pub open spec fn stamp(p: (i64, u32)) -> Timestamp {
    Timestamp { secs: p.0, nanos: p.1 }
}

/// The item that a record's fields describe, or why there is none.
pub open spec fn decode_fields(f: Seq<(Seq<char>, Option<Seq<char>>)>) -> Result<Practice, RecordError> {
    let pt = field_text(f, "practice_type"@);
    let sc = field_text(f, "scale"@);
    let ky = field_text(f, "key"@);
    let ry = field_text(f, "rythm"@);
    let cr = field_text(f, "created"@);
    let lv = field_text(f, "repetition_lvl"@);
    let lp = field_text(f, "last_practiced"@);
    if pt is None || sc is None || ky is None || ry is None || cr is None || lv is None
        || lp is None {
        Err(RecordError::MissingField)
    } else if PracticeType::from_name_spec(pt.unwrap()) is None || Scale::from_name_spec(
        sc.unwrap(),
    ) is None || Key::from_name_spec(ky.unwrap()) is None || Rythm::from_name_spec(ry.unwrap()) is None
        || SpacedRepetition::from_name_spec(lv.unwrap()) is None {
        Err(RecordError::UnknownName)
    } else if rfc3339_parse(cr.unwrap()) is None || rfc3339_parse(lp.unwrap()) is None {
        Err(RecordError::BadTimestamp)
    } else {
        Ok(
            Practice {
                practice_type: PracticeType::from_name_spec(pt.unwrap()).unwrap(),
                scale: Scale::from_name_spec(sc.unwrap()).unwrap(),
                key: Key::from_name_spec(ky.unwrap()).unwrap(),
                rythm: Rythm::from_name_spec(ry.unwrap()).unwrap(),
                created: stamp(rfc3339_parse(cr.unwrap()).unwrap()),
                repetition_lvl: SpacedRepetition::from_name_spec(lv.unwrap()).unwrap(),
                last_practiced: stamp(rfc3339_parse(lp.unwrap()).unwrap()),
            },
        )
    }
}

/// The value of the first field named `name`, where it is a string.
pub fn find_field(fields: &Vec<(String, Option<String>)>, name: &str) -> (r: Option<String>)
    ensures
        r.deep_view() == field_text(fields.deep_view(), name@),
{
    let ghost all = fields.deep_view();
    let mut i: usize = 0;
    assert(all.subrange(0, all.len() as int) =~= all);
    while i < fields.len()
        invariant
            i <= fields@.len(),
            all == fields.deep_view(),
            field_text(all, name@) == field_text(all.subrange(i as int, all.len() as int), name@),
        decreases fields@.len() - i,
    {
        let ghost rest = all.subrange(i as int, all.len() as int);
        assert(rest[0] == all[i as int]);
        if same_text(fields[i].0.as_str(), name) {
            return match &fields[i].1 {
                Some(s) => Some(s.clone()),
                None => None,
            };
        }
        assert(rest.drop_first() =~= all.subrange(i + 1, all.len() as int));
        i = i + 1;
    }
    None
}

impl Practice {
    /// The item's record fields, in a fixed order.
    pub fn to_fields(&self) -> (r: Result<Vec<(String, String)>, RecordError>)
        ensures
            match (r, fields_spec(*self)) {
                (Ok(v), Ok(f)) => v.deep_view() == f,
                (Err(e), Err(g)) => e == g,
                _ => false,
            },
    {
        let created = match rfc3339_text(self.created) {
            Some(c) => c,
            None => return Err(RecordError::TimestampOutOfRange),
        };
        let last = match rfc3339_text(self.last_practiced) {
            Some(l) => l,
            None => return Err(RecordError::TimestampOutOfRange),
        };
        let ghost c = created@;
        let ghost l = last@;
        let mut v: Vec<(String, String)> = Vec::new();
        v.push(("practice_type".to_owned(), self.practice_type.name().to_owned()));
        v.push(("scale".to_owned(), self.scale.name().to_owned()));
        v.push(("key".to_owned(), self.key.name().to_owned()));
        v.push(("rythm".to_owned(), self.rythm.name().to_owned()));
        v.push(("created".to_owned(), created));
        v.push(("repetition_lvl".to_owned(), self.repetition_lvl.name().to_owned()));
        v.push(("last_practiced".to_owned(), last));
        assert(v.deep_view() =~= encode_fields(*self, c, l));
        Ok(v)
    }

    /// The item as one line of JSON.
    pub fn to_json(&self) -> (r: Result<String, RecordError>)
        ensures
            match fields_spec(*self) {
                Ok(f) => r is Ok && r->Ok_0@ == json_object_of(f),
                Err(e) => r == Err::<String, RecordError>(e),
            },
    {
        let fields = match self.to_fields() {
            Ok(f) => f,
            Err(e) => return Err(e),
        };
        Ok(json_object_text(&fields).unwrap())
    }

    /// The item that a record's fields describe.
    pub fn from_fields(fields: &Vec<(String, Option<String>)>) -> (r: Result<Practice, RecordError>)
        ensures
            r == decode_fields(fields.deep_view()),
    {
        let pt = find_field(fields, "practice_type");
        let sc = find_field(fields, "scale");
        let ky = find_field(fields, "key");
        let ry = find_field(fields, "rythm");
        let cr = find_field(fields, "created");
        let lv = find_field(fields, "repetition_lvl");
        let lp = find_field(fields, "last_practiced");
        let (pt, sc, ky, ry, cr, lv, lp) = match (pt, sc, ky, ry, cr, lv, lp) {
            (Some(a), Some(b), Some(c), Some(d), Some(e), Some(f), Some(g)) => (a, b, c, d, e, f, g),
            _ => return Err(RecordError::MissingField),
        };
        let names = (
            PracticeType::from_name(pt.as_str()),
            Scale::from_name(sc.as_str()),
            Key::from_name(ky.as_str()),
            Rythm::from_name(ry.as_str()),
            SpacedRepetition::from_name(lv.as_str()),
        );
        let (practice_type, scale, key, rythm, repetition_lvl) = match names {
            (Some(a), Some(b), Some(c), Some(d), Some(e)) => (a, b, c, d, e),
            _ => return Err(RecordError::UnknownName),
        };
        let (created, last_practiced) = match (parse_rfc3339(cr.as_str()), parse_rfc3339(lp.as_str())) {
            (Some(a), Some(b)) => (a, b),
            _ => return Err(RecordError::BadTimestamp),
        };
        Ok(Practice { practice_type, scale, key, rythm, created, repetition_lvl, last_practiced })
    }

    /// The item that one line of JSON describes.
    pub fn from_json(line: &str) -> (r: Result<Practice, RecordError>)
        ensures
            r == (match json_fields_of(line@) {
                Some(f) => decode_fields(f),
                None => Err(RecordError::Malformed),
            }),
    {
        match json_fields(line) {
            Some(fields) => Practice::from_fields(&fields),
            None => Err(RecordError::Malformed),
        }
    }
}

/// Reading back the fields of an item gives the item again, whenever the
/// texts written for its two timestamps read back as those timestamps.
pub proof fn lemma_record_round_trip(p: Practice, created: Seq<char>, last: Seq<char>)
    requires
        rfc3339_parse(created) == Some((p.created.secs, p.created.nanos)),
        rfc3339_parse(last) == Some((p.last_practiced.secs, p.last_practiced.nanos)),
    ensures
        decode_fields(as_read(encode_fields(p, created, last))) == Ok::<Practice, RecordError>(p),
{
    let f = as_read(encode_fields(p, created, last));
    reveal_strlit("practice_type");
    reveal_strlit("scale");
    reveal_strlit("key");
    reveal_strlit("rythm");
    reveal_strlit("created");
    reveal_strlit("repetition_lvl");
    reveal_strlit("last_practiced");
    assert("scale"@[0] != "rythm"@[0]);
    assert("repetition_lvl"@[0] != "last_practiced"@[0]);
    let f1 = f.drop_first();
    let f2 = f1.drop_first();
    let f3 = f2.drop_first();
    let f4 = f3.drop_first();
    let f5 = f4.drop_first();
    let f6 = f5.drop_first();
    assert(f1[0] == f[1] && f2[0] == f[2] && f3[0] == f[3] && f4[0] == f[4]);
    assert(f5[0] == f[5] && f6[0] == f[6]);
    assert("key"@.len() != "practice_type"@.len() && "key"@.len() != "scale"@.len());
    assert("created"@.len() != "practice_type"@.len() && "created"@.len() != "scale"@.len());
    assert("created"@.len() != "key"@.len() && "created"@.len() != "rythm"@.len());
    reveal_with_fuel(field_text, 8);
    p.practice_type.lemma_name_round_trip();
    p.scale.lemma_name_round_trip();
    p.key.lemma_name_round_trip();
    p.rythm.lemma_name_round_trip();
    p.repetition_lvl.lemma_name_round_trip();
    assert(field_text(f, "practice_type"@) == Some(p.practice_type.name_spec()));
    assert(field_text(f, "scale"@) == Some(p.scale.name_spec()));
    assert(field_text(f, "key"@) == Some(p.key.name_spec()));
    assert(field_text(f, "rythm"@) == Some(p.rythm.name_spec()));
    assert(field_text(f, "created"@) == Some(created));
    assert(field_text(f, "repetition_lvl"@) == Some(p.repetition_lvl.name_spec()));
    assert(field_text(f, "last_practiced"@) == Some(last));
}

} // verus!
