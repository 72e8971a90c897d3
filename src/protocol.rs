//! Decoding one line of the stream into a message, and encoding a price
//! update back into its wire fields and into the recorded line.

use serde_json::Value;
use vstd::prelude::*;

verus! {

/// A scalar value of a decoded JSON object, as far as the protocol reads it.
pub enum JsonAtom {
    Text(String),
    Flag(bool),
    Other,
}

/// Mathematical view of a `JsonAtom`.
pub enum AtomView {
    Text(Seq<char>),
    Flag(bool),
    Other,
}

impl View for JsonAtom {
    type V = AtomView;

    open spec fn view(&self) -> AtomView {
        match self {
            JsonAtom::Text(s) => AtomView::Text(s@),
            JsonAtom::Flag(b) => AtomView::Flag(*b),
            JsonAtom::Other => AtomView::Other,
        }
    }
}

pub open spec fn fields_view(v: Seq<(String, JsonAtom)>) -> Seq<(Seq<char>, AtomView)> {
    v.map_values(|p: (String, JsonAtom)| (p.0@, p.1@))
}

/// The entries of the JSON object that a line holds, or `None` where the
/// line is not a JSON object.
pub uninterp spec fn json_object_of(line: Seq<char>) -> Option<Seq<(Seq<char>, AtomView)>>;

/// The RFC 3339 text, in UTC, of the instant that a timestamp text denotes,
/// or `None` where the text is no ISO 8601 / RFC 3339 timestamp.
pub uninterp spec fn utc_time_of(text: Seq<char>) -> Option<Seq<char>>;

/// The JSON number text of the floating-point value that a decimal text
/// denotes (`null` for a value that is not finite), or `None` where the text
/// does not parse as a float.
pub uninterp spec fn float_json_of(text: Seq<char>) -> Option<Seq<char>>;

/// A string as a quoted and escaped JSON string literal.
pub uninterp spec fn json_quoted_of(s: Seq<char>) -> Seq<char>;

/// Relies on serde_json::from_str into a serde_json::Map: the line's object
/// entries, strings and booleans kept, every other value marked as such.
#[verifier::external_body]
fn decode_object(line: &str) -> (r: Result<Vec<(String, JsonAtom)>, String>)
    ensures
        match r {
            Ok(v) => json_object_of(line@) == Some(fields_view(v@)),
            Err(_) => json_object_of(line@).is_none(),
        },
{
    serde_json::from_str::<serde_json::Map<String, Value>>(line)
        .map(|m| m.into_iter().map(|(k, v)| (k, match v {
            Value::String(s) => JsonAtom::Text(s),
            Value::Bool(b) => JsonAtom::Flag(b),
            Value::Null | Value::Number(_) | Value::Array(_) | Value::Object(_) => JsonAtom::Other,
        })).collect())
        .map_err(|e| e.to_string())
}

/// Relies on chrono's `DateTime::parse_from_str` with the `%+` format, then
/// `with_timezone(&Utc)` and `to_rfc3339_opts(SecondsFormat::AutoSi, true)`
/// to render the instant in UTC.
#[verifier::external_body]
fn utc_time_text(text: &str) -> (r: Result<String, String>)
    ensures
        match r {
            Ok(t) => utc_time_of(text@) == Some(t@),
            Err(_) => utc_time_of(text@).is_none(),
        },
{
    chrono::DateTime::parse_from_str(text, "%+")
        .map(|t| t.with_timezone(&chrono::Utc).to_rfc3339_opts(chrono::SecondsFormat::AutoSi, true))
        .map_err(|e| e.to_string())
}

/// Relies on std's float parsing of `str::parse`, and on serde_json's
/// rendering of the value (`serde_json::Number::from_f64`, `Value::from`).
#[verifier::external_body]
fn float_json_text(text: &str) -> (r: Result<String, String>)
    ensures
        match r {
            Ok(t) => float_json_of(text@) == Some(t@),
            Err(_) => float_json_of(text@).is_none(),
        },
{
    match text.parse() {
        Ok(x) => Ok(serde_json::Value::from(serde_json::Number::from_f64(x)).to_string()),
        Err(e) => Err(e.to_string()),
    }
}

/// Relies on serde_json's rendering of a `Value::String`: the quoted,
/// escaped literal.
#[verifier::external_body]
fn json_quoted(s: &str) -> (r: String)
    ensures
        r@ == json_quoted_of(s@),
{
    serde_json::Value::from(s).to_string()
}

/// The value of the first entry whose key is `key`.
pub open spec fn lookup(fields: Seq<(Seq<char>, AtomView)>, key: Seq<char>) -> Option<AtomView>
    decreases fields.len(),
{
    if fields.len() == 0 {
        None
    } else {
        match lookup(fields.drop_last(), key) {
            Some(a) => Some(a),
            None => if fields.last().0 == key {
                Some(fields.last().1)
            } else {
                None
            },
        }
    }
}

/// The string value under `key`, where there is one.
pub open spec fn text_field(fields: Seq<(Seq<char>, AtomView)>, key: Seq<char>) -> Option<Seq<char>> {
    match lookup(fields, key) {
        Some(AtomView::Text(t)) => Some(t),
        _ => None,
    }
}

/// The boolean value under `key`, where there is one.
pub open spec fn flag_field(fields: Seq<(Seq<char>, AtomView)>, key: Seq<char>) -> Option<bool> {
    match lookup(fields, key) {
        Some(AtomView::Flag(b)) => Some(b),
        _ => None,
    }
}

/// A price update. `time`, `closeout_bid` and `closeout_ask` hold the text
/// that came on the wire, checked to denote an instant and floats; the
/// recorded line carries the instant in UTC and the floats as JSON numbers.
pub struct PriceUpdate {
    pub time: String,
    pub closeout_bid: String,
    pub closeout_ask: String,
    pub status: String,
    pub tradeable: bool,
    pub instrument: String,
}

/// One message of the stream.
pub enum StreamMessage {
    Heartbeat { time: String },
    Price(PriceUpdate),
}

/// Mathematical view of a `PriceUpdate`.
pub struct PriceView {
    pub time: Seq<char>,
    pub closeout_bid: Seq<char>,
    pub closeout_ask: Seq<char>,
    pub status: Seq<char>,
    pub tradeable: bool,
    pub instrument: Seq<char>,
}

/// Mathematical view of a `StreamMessage`.
pub enum MessageView {
    Heartbeat { time: Seq<char> },
    Price(PriceView),
}

impl View for PriceUpdate {
    type V = PriceView;

    open spec fn view(&self) -> PriceView {
        PriceView {
            time: self.time@,
            closeout_bid: self.closeout_bid@,
            closeout_ask: self.closeout_ask@,
            status: self.status@,
            tradeable: self.tradeable,
            instrument: self.instrument@,
        }
    }
}

impl View for StreamMessage {
    type V = MessageView;

    open spec fn view(&self) -> MessageView {
        match self {
            StreamMessage::Heartbeat { time } => MessageView::Heartbeat { time: time@ },
            StreamMessage::Price(p) => MessageView::Price(p@),
        }
    }
}

impl PriceView {
    /// The texts denote an instant and two floats.
    pub open spec fn valid(self) -> bool {
        &&& utc_time_of(self.time).is_some()
        &&& float_json_of(self.closeout_bid).is_some()
        &&& float_json_of(self.closeout_ask).is_some()
    }
}

impl PriceUpdate {
    pub open spec fn wf(&self) -> bool {
        self@.valid()
    }
}

/// Why a line could not be decoded, with the underlying parser's message.
pub struct ParseError {
    pub message: String,
}

/// The message that the decoded entries of a line stand for: `type` names
/// the variant and every field of that variant is present, of its type and,
/// for texts that stand for an instant or a float, parseable as one.
pub open spec fn message_of(fields: Seq<(Seq<char>, AtomView)>) -> Option<MessageView> {
    match text_field(fields, "type"@) {
        Some(kind) => if kind == "HEARTBEAT"@ {
            match text_field(fields, "time"@) {
                Some(t) => if utc_time_of(t).is_some() {
                    Some(MessageView::Heartbeat { time: t })
                } else {
                    None
                },
                None => None,
            }
        } else if kind == "PRICE"@ {
            match (
                text_field(fields, "time"@),
                text_field(fields, "closeoutBid"@),
                text_field(fields, "closeoutAsk"@),
                text_field(fields, "status"@),
                flag_field(fields, "tradeable"@),
                text_field(fields, "instrument"@),
            ) {
                (Some(t), Some(bid), Some(ask), Some(st), Some(tr), Some(ins)) => {
                    let p = PriceView {
                        time: t,
                        closeout_bid: bid,
                        closeout_ask: ask,
                        status: st,
                        tradeable: tr,
                        instrument: ins,
                    };
                    if p.valid() {
                        Some(MessageView::Price(p))
                    } else {
                        None
                    }
                },
                _ => None,
            }
        } else {
            None
        },
        None => None,
    }
}

/// The message that a line of text stands for.
pub open spec fn parse_spec(line: Seq<char>) -> Option<MessageView> {
    match json_object_of(line) {
        Some(fields) => message_of(fields),
        None => None,
    }
}

pub(crate) fn str_eq(a: &str, b: &str) -> (r: bool)
    ensures
        r == (a@ == b@),
{
    let x = a.to_owned();
    let y = b.to_owned();
    x == y
}

proof fn lemma_lookup_prefix(fields: Seq<(Seq<char>, AtomView)>, n: int, key: Seq<char>)
    requires
        0 <= n <= fields.len(),
        lookup(fields.take(n), key).is_some(),
    ensures
        lookup(fields, key) == lookup(fields.take(n), key),
    decreases fields.len(),
{
    if n < fields.len() {
        assert(fields.drop_last().take(n) == fields.take(n));
        lemma_lookup_prefix(fields.drop_last(), n, key);
    } else {
        assert(fields.take(n) == fields);
    }
}

/// The value under `key` in decoded entries: the first entry with that key.
pub fn find_field<'a>(fields: &'a Vec<(String, JsonAtom)>, key: &str) -> (r: Option<&'a JsonAtom>)
    ensures
        match r {
            Some(a) => lookup(fields_view(fields@), key@) == Some(a@),
            None => lookup(fields_view(fields@), key@).is_none(),
        },
{
    let ghost fv = fields_view(fields@);
    let mut i: usize = 0;
    while i < fields.len()
        invariant
            i <= fields.len(),
            fv == fields_view(fields@),
            lookup(fv.take(i as int), key@).is_none(),
        decreases fields.len() - i,
    {
        assert(fv.take(i as int + 1).drop_last() == fv.take(i as int));
        if str_eq(fields[i].0.as_str(), key) {
            proof {
                lemma_lookup_prefix(fv, i as int + 1, key@);
            }
            return Some(&fields[i].1);
        }
        i = i + 1;
    }
    assert(fv.take(i as int) == fv);
    None
}

fn text_entry(fields: &Vec<(String, JsonAtom)>, key: &str) -> (r: Option<String>)
    ensures
        match r {
            Some(t) => text_field(fields_view(fields@), key@) == Some(t@),
            None => text_field(fields_view(fields@), key@).is_none(),
        },
{
    match find_field(fields, key) {
        Some(JsonAtom::Text(t)) => Some(t.clone()),
        _ => None,
    }
}

fn flag_entry(fields: &Vec<(String, JsonAtom)>, key: &str) -> (r: Option<bool>)
    ensures
        r == flag_field(fields_view(fields@), key@),
{
    match find_field(fields, key) {
        Some(JsonAtom::Flag(b)) => Some(*b),
        _ => None,
    }
}

fn parse_error(message: &str) -> (r: ParseError)
    ensures
        r.message@ == message@,
{
    ParseError { message: message.to_owned() }
}

fn required_text(fields: &Vec<(String, JsonAtom)>, key: &str, missing: &str) -> (r: Result<String, ParseError>)
    ensures
        match r {
            Ok(t) => text_field(fields_view(fields@), key@) == Some(t@),
            Err(_) => text_field(fields_view(fields@), key@).is_none(),
        },
{
    match text_entry(fields, key) {
        Some(t) => Ok(t),
        None => Err(parse_error(missing)),
    }
}

fn checked_time(text: String) -> (r: Result<String, ParseError>)
    ensures
        match r {
            Ok(t) => t@ == text@ && utc_time_of(text@).is_some(),
            Err(_) => utc_time_of(text@).is_none(),
        },
{
    match utc_time_text(text.as_str()) {
        Ok(_) => Ok(text),
        Err(e) => Err(ParseError { message: e }),
    }
}

fn checked_float(text: String) -> (r: Result<String, ParseError>)
    ensures
        match r {
            Ok(t) => t@ == text@ && float_json_of(text@).is_some(),
            Err(_) => float_json_of(text@).is_none(),
        },
{
    match float_json_text(text.as_str()) {
        Ok(_) => Ok(text),
        Err(e) => Err(ParseError { message: e }),
    }
}

/// Second stage of decoding: the typed message that decoded entries stand
/// for. Fails exactly where `message_of` has no message.
pub fn classify(fields: &Vec<(String, JsonAtom)>) -> (r: Result<StreamMessage, ParseError>)
    ensures
        match r {
            Ok(m) => message_of(fields_view(fields@)) == Some(m@),
            Err(_) => message_of(fields_view(fields@)).is_none(),
        },
{
    let kind = required_text(fields, "type", "missing field `type`")?;
    if str_eq(kind.as_str(), "HEARTBEAT") {
        let time = checked_time(required_text(fields, "time", "missing field `time`")?)?;
        Ok(StreamMessage::Heartbeat { time })
    } else if str_eq(kind.as_str(), "PRICE") {
        let time = checked_time(required_text(fields, "time", "missing field `time`")?)?;
        let closeout_bid = checked_float(
            required_text(fields, "closeoutBid", "missing field `closeoutBid`")?,
        )?;
        let closeout_ask = checked_float(
            required_text(fields, "closeoutAsk", "missing field `closeoutAsk`")?,
        )?;
        let status = required_text(fields, "status", "missing field `status`")?;
        let tradeable = match flag_entry(fields, "tradeable") {
            Some(b) => b,
            None => {
                return Err(parse_error("missing field `tradeable`"));
            },
        };
        let instrument = required_text(fields, "instrument", "missing field `instrument`")?;
        Ok(StreamMessage::Price(PriceUpdate { time, closeout_bid, closeout_ask, status, tradeable, instrument }))
    } else {
        Err(parse_error("unknown variant, expected `HEARTBEAT` or `PRICE`"))
    }
}

/// Decodes one line of the stream. Fails, with the parser's message, exactly
/// where the line is no JSON object or its entries stand for no message.
pub fn parse(line: &str) -> (r: Result<StreamMessage, ParseError>)
    ensures
        match r {
            Ok(m) => parse_spec(line@) == Some(m@),
            Err(_) => parse_spec(line@).is_none(),
        },
{
    match decode_object(line) {
        Ok(fields) => classify(&fields),
        Err(e) => Err(ParseError { message: e }),
    }
}

/// The wire entries of a price update, as the stream sends them.
pub open spec fn wire_view(p: PriceView) -> Seq<(Seq<char>, AtomView)> {
    seq![
        ("type"@, AtomView::Text("PRICE"@)),
        ("time"@, AtomView::Text(p.time)),
        ("closeoutBid"@, AtomView::Text(p.closeout_bid)),
        ("closeoutAsk"@, AtomView::Text(p.closeout_ask)),
        ("status"@, AtomView::Text(p.status)),
        ("tradeable"@, AtomView::Flag(p.tradeable)),
        ("instrument"@, AtomView::Text(p.instrument)),
    ]
}

fn text_atom(key: &str, value: &String) -> (r: (String, JsonAtom))
    ensures
        r.0@ == key@,
        r.1@ == AtomView::Text(value@),
{
    (key.to_owned(), JsonAtom::Text(value.clone()))
}

impl PriceUpdate {
    /// The entries that the stream would carry for this update.
    pub fn wire_fields(&self) -> (r: Vec<(String, JsonAtom)>)
        ensures
            fields_view(r@) == wire_view(self@),
    {
        let mut v: Vec<(String, JsonAtom)> = Vec::new();
        v.push(text_atom("type", &"PRICE".to_owned()));
        v.push(text_atom("time", &self.time));
        v.push(text_atom("closeoutBid", &self.closeout_bid));
        v.push(text_atom("closeoutAsk", &self.closeout_ask));
        v.push(text_atom("status", &self.status));
        v.push(("tradeable".to_owned(), JsonAtom::Flag(self.tradeable)));
        v.push(text_atom("instrument", &self.instrument));
        assert(fields_view(v@) =~= wire_view(self@));
        v
    }
}

proof fn lemma_lookup_push(fields: Seq<(Seq<char>, AtomView)>, e: (Seq<char>, AtomView), key: Seq<char>)
    ensures
        lookup(fields.push(e), key) == match lookup(fields, key) {
            Some(a) => Some(a),
            None => if e.0 == key {
                Some(e.1)
            } else {
                None
            },
        },
{
    assert(fields.push(e).drop_last() == fields);
}

/// Decoding the wire entries of a decoded price update gives that update
/// back, field for field.
pub proof fn lemma_price_round_trip(fields: Seq<(Seq<char>, AtomView)>, p: PriceView)
    requires
        message_of(fields) == Some(MessageView::Price(p)),
    ensures
        message_of(wire_view(p)) == Some(MessageView::Price(p)),
{
    reveal_strlit("type");
    reveal_strlit("time");
    reveal_strlit("closeoutBid");
    reveal_strlit("closeoutAsk");
    reveal_strlit("status");
    reveal_strlit("tradeable");
    reveal_strlit("instrument");
    let keys = seq!["type"@, "time"@, "closeoutBid"@, "closeoutAsk"@, "status"@, "tradeable"@, "instrument"@];
    assert(keys[0] != keys[1] && keys[0] != keys[2] && keys[0] != keys[3] && keys[0] != keys[4] && keys[0] != keys[5] && keys[0] != keys[6]) by {
        assert(keys[0][1] != keys[1][1]);
        assert(keys[0].len() != keys[2].len() && keys[0].len() != keys[3].len() && keys[0].len() != keys[5].len() && keys[0].len() != keys[6].len());
        assert(keys[0].len() != keys[4].len());
    }
    assert(keys[1] != keys[2] && keys[1] != keys[3] && keys[1] != keys[4] && keys[1] != keys[5] && keys[1] != keys[6]) by {
        assert(keys[1].len() != keys[2].len() && keys[1].len() != keys[3].len() && keys[1].len() != keys[4].len() && keys[1].len() != keys[5].len() && keys[1].len() != keys[6].len());
    }
    assert(keys[2] != keys[3] && keys[2] != keys[4] && keys[2] != keys[5] && keys[2] != keys[6]) by {
        assert(keys[2][8] != keys[3][8]);
        assert(keys[2].len() != keys[4].len() && keys[2].len() != keys[5].len());
        assert(keys[2][0] != keys[6][0]);
    }
    assert(keys[3] != keys[4] && keys[3] != keys[5] && keys[3] != keys[6]) by {
        assert(keys[3].len() != keys[4].len() && keys[3].len() != keys[5].len());
        assert(keys[3][0] != keys[6][0]);
    }
    assert(keys[4] != keys[5] && keys[4] != keys[6]) by {
        assert(keys[4].len() != keys[5].len() && keys[4].len() != keys[6].len());
    }
    assert(keys[5] != keys[6]) by {
        assert(keys[5][0] != keys[6][0]);
    }
    let e = wire_view(p);
    let w0 = Seq::<(Seq<char>, AtomView)>::empty();
    let w1 = w0.push(e[0]);
    let w2 = w1.push(e[1]);
    let w3 = w2.push(e[2]);
    let w4 = w3.push(e[3]);
    let w5 = w4.push(e[4]);
    let w6 = w5.push(e[5]);
    let w7 = w6.push(e[6]);
    assert(w7 == e);
    assert forall|k: Seq<char>| #![auto] keys.contains(k) implies lookup(e, k) == Some(
        e[keys.index_of(k)].1,
    ) by {
        lemma_lookup_push(w0, e[0], k);
        lemma_lookup_push(w1, e[1], k);
        lemma_lookup_push(w2, e[2], k);
        lemma_lookup_push(w3, e[3], k);
        lemma_lookup_push(w4, e[4], k);
        lemma_lookup_push(w5, e[5], k);
        lemma_lookup_push(w6, e[6], k);
    }
    assert(keys.contains(keys[0]) && keys.contains(keys[1]) && keys.contains(keys[2]) && keys.contains(keys[3]));
    assert(keys.contains(keys[4]) && keys.contains(keys[5]) && keys.contains(keys[6]));
}

/// A line whose object names no known `type` decodes to no message.
pub proof fn lemma_unknown_type_rejected(line: Seq<char>)
    requires
        forall|f| #![auto] json_object_of(line) == Some(f) ==> match text_field(f, "type"@) {
            Some(k) => k != "HEARTBEAT"@ && k != "PRICE"@,
            None => true,
        },
    ensures
        parse_spec(line).is_none(),
{
}

pub open spec fn bool_text(b: bool) -> Seq<char> {
    if b {
        "true"@
    } else {
        "false"@
    }
}

/// The line recorded for a valid price update: a JSON object with the
/// instant in UTC and the prices as numbers.
pub open spec fn record_text(p: PriceView) -> Seq<char> {
    "{\"type\":\"PRICE\",\"time\":"@ + json_quoted_of(utc_time_of(p.time).unwrap())
        + ",\"closeout_bid\":"@ + float_json_of(p.closeout_bid).unwrap()
        + ",\"closeout_ask\":"@ + float_json_of(p.closeout_ask).unwrap()
        + ",\"status\":"@ + json_quoted_of(p.status)
        + ",\"tradeable\":"@ + bool_text(p.tradeable)
        + ",\"instrument\":"@ + json_quoted_of(p.instrument)
        + "}"@
}

impl PriceUpdate {
    /// The line to record for this update, without its newline.
    pub fn record_line(&self) -> (r: String)
        requires
            self.wf(),
        ensures
            r@ == record_text(self@),
    {
        let time = match utc_time_text(self.time.as_str()) {
            Ok(t) => t,
            Err(_) => {
                assert(false);
                String::new()
            },
        };
        let bid = match float_json_text(self.closeout_bid.as_str()) {
            Ok(t) => t,
            Err(_) => {
                assert(false);
                String::new()
            },
        };
        let ask = match float_json_text(self.closeout_ask.as_str()) {
            Ok(t) => t,
            Err(_) => {
                assert(false);
                String::new()
            },
        };
        let mut out = "{\"type\":\"PRICE\",\"time\":".to_owned();
        out.append(json_quoted(time.as_str()).as_str());
        out.append(",\"closeout_bid\":");
        out.append(bid.as_str());
        out.append(",\"closeout_ask\":");
        out.append(ask.as_str());
        out.append(",\"status\":");
        out.append(json_quoted(self.status.as_str()).as_str());
        out.append(",\"tradeable\":");
        if self.tradeable {
            out.append("true");
        } else {
            out.append("false");
        }
        out.append(",\"instrument\":");
        out.append(json_quoted(self.instrument.as_str()).as_str());
        out.append("}");
        out
    }
}

} // verus!
