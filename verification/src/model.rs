//! The service's data shapes: recognition results, job descriptors, and the
//! claims read from a worker's bearer token.
//!
//! Each shape has a canonical JSON text, defined here over the escaping rules
//! of [`crate::json_text`]. Results posted by workers arrive as arbitrary
//! JSON, so reading them goes through a trusted `serde_json` wrapper; the
//! shapes the service writes itself are encoded by verified code.

use vstd::prelude::*;
use vstd::string::*;
use crate::json_text;
use crate::json_text::{
    append_quoted, append_str_chars, chars_to_string, esc_seq, hex_digit, match_lit, quoted,
    sp_lit_at, sp_str_body, spec_hex_digit, str_body, string_to_chars,
};

verus! {

/// The string members of a recognition result record, as read from or written
/// to the result store.
pub struct ScanFields {
    pub key: String,
    pub scan_result: String,
    pub data_type: String,
    pub data_extension: String,
    pub scan_machine_guid: String,
}

/// The mathematical image of [`ScanFields`].
pub struct ScanFieldsV {
    pub key: Seq<char>,
    pub scan_result: Seq<char>,
    pub data_type: Seq<char>,
    pub data_extension: Seq<char>,
    pub scan_machine_guid: Seq<char>,
}

impl View for ScanFields {
    type V = ScanFieldsV;

    open spec fn view(&self) -> ScanFieldsV {
        ScanFieldsV {
            key: self.key@,
            scan_result: self.scan_result@,
            data_type: self.data_type@,
            data_extension: self.data_extension@,
            scan_machine_guid: self.scan_machine_guid@,
        }
    }
}

/// A stored result is valid exactly when every required member is non-empty.
pub open spec fn spec_valid_fields(f: ScanFieldsV) -> bool {
    &&& f.key.len() > 0
    &&& f.scan_result.len() > 0
    &&& f.data_type.len() > 0
    &&& f.data_extension.len() > 0
    &&& f.scan_machine_guid.len() > 0
}

/// Decides whether a stored result carries every required member non-empty.
pub fn is_valid_recognition_result(f: &ScanFields) -> (r: bool)
    ensures
        r == spec_valid_fields(f@),
{
    !f.key.as_str().is_empty() && !f.scan_result.as_str().is_empty()
        && !f.data_type.as_str().is_empty() && !f.data_extension.as_str().is_empty()
        && !f.scan_machine_guid.as_str().is_empty()
}

/// A complete recognition result record: the required string members plus the
/// provenance flag the worker surface assigns.
pub struct RecognitionResult {
    pub fields: ScanFields,
    pub is_user_scan: bool,
}

/// The mathematical image of [`RecognitionResult`].
pub struct RecognitionResultV {
    pub fields: ScanFieldsV,
    pub is_user_scan: bool,
}

impl View for RecognitionResult {
    type V = RecognitionResultV;

    open spec fn view(&self) -> RecognitionResultV {
        RecognitionResultV { fields: self.fields@, is_user_scan: self.is_user_scan }
    }
}

/// The JSON text of a boolean member.
pub open spec fn spec_bool_json(b: bool) -> Seq<char> {
    if b {
        "true"@
    } else {
        "false"@
    }
}

/// The canonical JSON text of a recognition result record.
pub open spec fn spec_result_json(r: RecognitionResultV) -> Seq<char> {
    "{\"Key\":"@ + quoted(r.fields.key) + ",\"ScanResult\":"@ + quoted(r.fields.scan_result)
        + ",\"DataType\":"@ + quoted(r.fields.data_type) + ",\"DataExtension\":"@ + quoted(
        r.fields.data_extension,
    ) + ",\"ScanMachineGuid\":"@ + quoted(r.fields.scan_machine_guid) + ",\"IsUserScan\":"@
        + spec_bool_json(r.is_user_scan) + "}"@
}

/// Encodes a recognition result record as its canonical JSON text.
pub fn encode_recognition_result(r: &RecognitionResult) -> (out: String)
    ensures
        out@ == spec_result_json(r@),
{
    let mut acc: Vec<char> = Vec::new();
    append_str_chars(&mut acc, "{\"Key\":");
    append_quoted(&mut acc, &r.fields.key);
    append_str_chars(&mut acc, ",\"ScanResult\":");
    append_quoted(&mut acc, &r.fields.scan_result);
    append_str_chars(&mut acc, ",\"DataType\":");
    append_quoted(&mut acc, &r.fields.data_type);
    append_str_chars(&mut acc, ",\"DataExtension\":");
    append_quoted(&mut acc, &r.fields.data_extension);
    append_str_chars(&mut acc, ",\"ScanMachineGuid\":");
    append_quoted(&mut acc, &r.fields.scan_machine_guid);
    append_str_chars(&mut acc, ",\"IsUserScan\":");
    if r.is_user_scan {
        append_str_chars(&mut acc, "true");
    } else {
        append_str_chars(&mut acc, "false");
    }
    append_str_chars(&mut acc, "}");
    proof {
        assert(acc@ =~= spec_result_json(r@));
    }
    chars_to_string(&acc)
}

/// A job descriptor: the unit the coordinator enqueues and a worker leases.
#[allow(non_snake_case)]
pub struct WorkQueueData {
    pub ImageHash: String,
    pub ScanUrl: String,
    pub DataType: String,
    pub DataExtension: String,
}

/// The mathematical image of [`WorkQueueData`].
pub struct WorkQueueDataV {
    pub image_hash: Seq<char>,
    pub scan_url: Seq<char>,
    pub data_type: Seq<char>,
    pub data_extension: Seq<char>,
}

impl View for WorkQueueData {
    type V = WorkQueueDataV;

    open spec fn view(&self) -> WorkQueueDataV {
        WorkQueueDataV {
            image_hash: self.ImageHash@,
            scan_url: self.ScanUrl@,
            data_type: self.DataType@,
            data_extension: self.DataExtension@,
        }
    }
}

/// A queue item is valid exactly when all four members are non-empty.
pub open spec fn spec_valid_queue_item(q: WorkQueueDataV) -> bool {
    &&& q.image_hash.len() > 0
    &&& q.scan_url.len() > 0
    &&& q.data_type.len() > 0
    &&& q.data_extension.len() > 0
}

/// Decides whether a queue item carries all four members non-empty.
pub fn is_valid_queue_item(q: &WorkQueueData) -> (r: bool)
    ensures
        r == spec_valid_queue_item(q@),
{
    !q.ImageHash.as_str().is_empty() && !q.ScanUrl.as_str().is_empty()
        && !q.DataType.as_str().is_empty() && !q.DataExtension.as_str().is_empty()
}

/// The canonical JSON text of a job descriptor.
pub open spec fn spec_queue_item_json(q: WorkQueueDataV) -> Seq<char> {
    "{\"ImageHash\":"@ + quoted(q.image_hash) + ",\"ScanUrl\":"@ + quoted(q.scan_url)
        + ",\"DataType\":"@ + quoted(q.data_type) + ",\"DataExtension\":"@ + quoted(
        q.data_extension,
    ) + "}"@
}

/// Encodes a job descriptor as its canonical JSON text.
pub fn encode_queue_item(q: &WorkQueueData) -> (out: String)
    ensures
        out@ == spec_queue_item_json(q@),
{
    let mut acc: Vec<char> = Vec::new();
    append_str_chars(&mut acc, "{\"ImageHash\":");
    append_quoted(&mut acc, &q.ImageHash);
    append_str_chars(&mut acc, ",\"ScanUrl\":");
    append_quoted(&mut acc, &q.ScanUrl);
    append_str_chars(&mut acc, ",\"DataType\":");
    append_quoted(&mut acc, &q.DataType);
    append_str_chars(&mut acc, ",\"DataExtension\":");
    append_quoted(&mut acc, &q.DataExtension);
    append_str_chars(&mut acc, "}");
    proof {
        assert(acc@ =~= spec_queue_item_json(q@));
    }
    chars_to_string(&acc)
}

/// The decimal text of a natural number.
pub open spec fn spec_dec_nat(n: int) -> Seq<char>
    decreases n,
{
    if n < 10 {
        seq![spec_hex_digit(n)]
    } else {
        spec_dec_nat(n / 10) + seq![spec_hex_digit(n % 10)]
    }
}

/// Writes a number in decimal.
pub fn dec_nat(n: u64) -> (r: Vec<char>)
    ensures
        r@ == spec_dec_nat(n as int),
    decreases n,
{
    if n < 10 {
        let mut r: Vec<char> = Vec::new();
        r.push(hex_digit(n as u8));
        proof {
            assert(r@ =~= seq![spec_hex_digit(n as int)]);
        }
        r
    } else {
        let mut r = dec_nat(n / 10);
        r.push(hex_digit((n % 10) as u8));
        proof {
            assert(r@ =~= spec_dec_nat(n as int / 10) + seq![spec_hex_digit(n as int % 10)]);
        }
        r
    }
}

/// The legacy scan summary returned by the older detection endpoint.
pub struct ScanData {
    pub key: String,
    pub data_type: String,
    pub scan_machine_guid: String,
    pub is_user_scan: bool,
    pub scan_result: String,
    pub ttl: u64,
}

/// The mathematical image of [`ScanData`].
pub struct ScanDataV {
    pub key: Seq<char>,
    pub data_type: Seq<char>,
    pub scan_machine_guid: Seq<char>,
    pub is_user_scan: bool,
    pub scan_result: Seq<char>,
    pub ttl: int,
}

impl View for ScanData {
    type V = ScanDataV;

    open spec fn view(&self) -> ScanDataV {
        ScanDataV {
            key: self.key@,
            data_type: self.data_type@,
            scan_machine_guid: self.scan_machine_guid@,
            is_user_scan: self.is_user_scan,
            scan_result: self.scan_result@,
            ttl: self.ttl as int,
        }
    }
}

/// The canonical JSON text of the legacy scan summary.
pub open spec fn spec_scan_data_json(d: ScanDataV) -> Seq<char> {
    "{\"key\":"@ + quoted(d.key) + ",\"data_type\":"@ + quoted(d.data_type)
        + ",\"scan_machine_guid\":"@ + quoted(d.scan_machine_guid) + ",\"is_user_scan\":"@
        + spec_bool_json(d.is_user_scan) + ",\"scan_result\":"@ + quoted(d.scan_result)
        + ",\"ttl\":"@ + spec_dec_nat(d.ttl) + "}"@
}

/// Encodes the legacy scan summary as its canonical JSON text.
pub fn encode_scan_data(d: &ScanData) -> (out: String)
    ensures
        out@ == spec_scan_data_json(d@),
{
    let mut acc: Vec<char> = Vec::new();
    append_str_chars(&mut acc, "{\"key\":");
    append_quoted(&mut acc, &d.key);
    append_str_chars(&mut acc, ",\"data_type\":");
    append_quoted(&mut acc, &d.data_type);
    append_str_chars(&mut acc, ",\"scan_machine_guid\":");
    append_quoted(&mut acc, &d.scan_machine_guid);
    append_str_chars(&mut acc, ",\"is_user_scan\":");
    if d.is_user_scan {
        append_str_chars(&mut acc, "true");
    } else {
        append_str_chars(&mut acc, "false");
    }
    append_str_chars(&mut acc, ",\"scan_result\":");
    append_quoted(&mut acc, &d.scan_result);
    append_str_chars(&mut acc, ",\"ttl\":");
    let mut digits = dec_nat(d.ttl);
    let mut i: usize = 0;
    let ghost before_digits = acc@;
    while i < digits.len()
        invariant
            i <= digits@.len(),
            acc@ == before_digits + digits@.take(i as int),
        decreases digits@.len() - i,
    {
        acc.push(digits[i]);
        proof {
            assert(acc@ =~= before_digits + digits@.take(i + 1));
        }
        i = i + 1;
    }
    append_str_chars(&mut acc, "}");
    proof {
        assert(digits@.take(digits@.len() as int) =~= digits@);
        assert(acc@ =~= spec_scan_data_json(d@));
    }
    chars_to_string(&acc)
}

/// The claims carried by a worker's bearer token. The only member the service
/// trusts for identity is `apiTokenMachineGuid`.
#[allow(non_snake_case)]
pub struct PamApiTokenPayload {
    pub ownerId: i64,
    pub isApiToken: bool,
    pub apiTokenMachineGuid: String,
    pub projectId: i64,
    pub nbf: i32,
    pub exp: i32,
    pub iat: i32,
    pub iss: String,
}

/// Why a posted or stored result body could not be read as a result record.
#[derive(PartialEq, Eq, Structural, Clone, Copy, Debug)]
pub enum JsonShapeError {
    /// The body is not JSON at all.
    NotJson,
    /// The body is JSON but some required member is missing or not a string.
    WrongShape,
}

/// What parsing a result body yields, as a function of the text alone.
pub uninterp spec fn spec_parse_scan(s: Seq<char>) -> Result<ScanFieldsV, JsonShapeError>;

/// Reads a result record from JSON text. Relies on `serde_json::from_str` to
/// decide whether the body is JSON, and on `serde_json::Value::as_str` to
/// extract each required member when it is a string.
#[verifier::external_body]
pub fn parse_scan_fields(s: &str) -> (r: Result<ScanFields, JsonShapeError>)
    ensures
        (match r {
            Ok(f) => spec_parse_scan(s@) == Ok::<ScanFieldsV, JsonShapeError>(f@),
            Err(e) => spec_parse_scan(s@) == Err::<ScanFieldsV, JsonShapeError>(e),
        }),
{
    let v: serde_json::Value = match serde_json::from_str(s) {
        Ok(v) => v,
        Err(_) => return Err(JsonShapeError::NotJson),
    };
    let m = (v["Key"].as_str(), v["ScanResult"].as_str(), v["DataType"].as_str(),
        v["DataExtension"].as_str(), v["ScanMachineGuid"].as_str());
    match m {
        (Some(k), Some(sr), Some(dt), Some(de), Some(g)) => Ok(ScanFields {
            key: k.to_string(), scan_result: sr.to_string(), data_type: dt.to_string(),
            data_extension: de.to_string(), scan_machine_guid: g.to_string(),
        }),
        _ => Err(JsonShapeError::WrongShape),
    }
}

/// The bearer token inside a login reply, as a function of the text alone.
pub uninterp spec fn spec_login_token(s: Seq<char>) -> Option<Seq<char>>;

/// Reads the nested `Token.Token` member out of a Database API login reply.
/// Relies on `serde_json::from_str` and `serde_json::Value::as_str`.
#[verifier::external_body]
pub fn parse_login_token(s: &str) -> (r: Option<String>)
    ensures
        (match r {
            Some(t) => spec_login_token(s@) == Some(t@),
            None => spec_login_token(s@) is None,
        }),
{
    let v: serde_json::Value = match serde_json::from_str(s) {
        Ok(v) => v,
        Err(_) => return None,
    };
    v["Token"]["Token"].as_str().map(str::to_string)
}

} // verus!

verus! {

/// Reads a job descriptor back from its canonical JSON text. Anything that is
/// not exactly the canonical text of some descriptor is rejected; this is
/// sound because every message on the queue was written by
/// [`encode_queue_item`].
pub open spec fn sp_parse_queue_item(s: Seq<char>) -> Option<WorkQueueDataV> {
    if !sp_lit_at(s, 0, "{\"ImageHash\":\""@) {
        None
    } else {
        match sp_str_body(s, "{\"ImageHash\":\""@.len() as int) {
            None => None,
            Some((image_hash, a)) => {
                if !sp_lit_at(s, a, ",\"ScanUrl\":\""@) {
                    None
                } else {
                    match sp_str_body(s, a + ",\"ScanUrl\":\""@.len()) {
                        None => None,
                        Some((scan_url, b)) => {
                            if !sp_lit_at(s, b, ",\"DataType\":\""@) {
                                None
                            } else {
                                match sp_str_body(s, b + ",\"DataType\":\""@.len()) {
                                    None => None,
                                    Some((data_type, c)) => {
                                        if !sp_lit_at(s, c, ",\"DataExtension\":\""@) {
                                            None
                                        } else {
                                            match sp_str_body(
                                                s,
                                                c + ",\"DataExtension\":\""@.len(),
                                            ) {
                                                None => None,
                                                Some((data_extension, d)) => {
                                                    if sp_lit_at(s, d, "}"@) && d + "}"@.len()
                                                        == s.len() {
                                                        Some(
                                                            WorkQueueDataV {
                                                                image_hash,
                                                                scan_url,
                                                                data_type,
                                                                data_extension,
                                                            },
                                                        )
                                                    } else {
                                                        None
                                                    }
                                                },
                                            }
                                        }
                                    },
                                }
                            }
                        },
                    }
                }
            },
        }
    }
}

/// Reads a job descriptor back from its canonical JSON text.
pub fn parse_queue_item(s: &str) -> (r: Option<WorkQueueData>)
    ensures
        (match r {
            Some(q) => sp_parse_queue_item(s@) == Some(q@),
            None => sp_parse_queue_item(s@) is None,
        }),
{
    let chars = string_to_chars(s);
    let pos1 = match match_lit(&chars, 0, "{\"ImageHash\":\"") {
        Some(i) => i,
        None => {
            return None;
        },
    };
    let (image_hash, pos2) = match str_body(&chars, pos1) {
        Some(p) => p,
        None => {
            return None;
        },
    };
    let pos3 = match match_lit(&chars, pos2, ",\"ScanUrl\":\"") {
        Some(i) => i,
        None => {
            return None;
        },
    };
    let (scan_url, pos4) = match str_body(&chars, pos3) {
        Some(p) => p,
        None => {
            return None;
        },
    };
    let pos5 = match match_lit(&chars, pos4, ",\"DataType\":\"") {
        Some(i) => i,
        None => {
            return None;
        },
    };
    let (data_type, pos6) = match str_body(&chars, pos5) {
        Some(p) => p,
        None => {
            return None;
        },
    };
    let pos7 = match match_lit(&chars, pos6, ",\"DataExtension\":\"") {
        Some(i) => i,
        None => {
            return None;
        },
    };
    let (data_extension, pos8) = match str_body(&chars, pos7) {
        Some(p) => p,
        None => {
            return None;
        },
    };
    let pos9 = match match_lit(&chars, pos8, "}") {
        Some(i) => i,
        None => {
            return None;
        },
    };
    if pos9 != chars.len() {
        return None;
    }
    Some(
        WorkQueueData {
            ImageHash: chars_to_string(&image_hash),
            ScanUrl: chars_to_string(&scan_url),
            DataType: chars_to_string(&data_type),
            DataExtension: chars_to_string(&data_extension),
        },
    )
}

/// Decoding inverts encoding: a job descriptor read back from its canonical
/// JSON text is the descriptor that was written.
#[verifier::rlimit(80)]
pub proof fn lemma_queue_item_round_trip(q: WorkQueueDataV)
    ensures
        sp_parse_queue_item(spec_queue_item_json(q)) == Some(q),
{
    reveal_strlit("{\"ImageHash\":");
    reveal_strlit(",\"ScanUrl\":");
    reveal_strlit(",\"DataType\":");
    reveal_strlit(",\"DataExtension\":");
    reveal_strlit("}");
    reveal_strlit("{\"ImageHash\":\"");
    reveal_strlit(",\"ScanUrl\":\"");
    reveal_strlit(",\"DataType\":\"");
    reveal_strlit(",\"DataExtension\":\"");
    let s = spec_queue_item_json(q);
    let q1 = quoted(q.image_hash);
    let q2 = quoted(q.scan_url);
    let q3 = quoted(q.data_type);
    let q4 = quoted(q.data_extension);
    let e1 = esc_seq(q.image_hash);
    let e2 = esc_seq(q.scan_url);
    let e3 = esc_seq(q.data_type);
    let e4 = esc_seq(q.data_extension);
    let a0 = 14int;
    let a1 = a0 + e1.len() + 1;
    let b0 = a1 + 12;
    let b1 = b0 + e2.len() + 1;
    let c0 = b1 + 13;
    let c1 = c0 + e3.len() + 1;
    let d0 = c1 + 18;
    let d1 = d0 + e4.len() + 1;
    assert(s.len() == d1 + 1);
    assert(s.subrange(0, a0) =~= "{\"ImageHash\":\""@);
    assert(sp_lit_at(s, 0, "{\"ImageHash\":\""@));
    assert(s.subrange(a0, a0 + e1.len() + 1) =~= e1 + seq!['"']);
    json_text::lemma_str_body_complete(s, a0, q.image_hash);
    assert(s.subrange(a1, b0) =~= ",\"ScanUrl\":\""@);
    assert(sp_lit_at(s, a1, ",\"ScanUrl\":\""@));
    assert(s.subrange(b0, b0 + e2.len() + 1) =~= e2 + seq!['"']);
    json_text::lemma_str_body_complete(s, b0, q.scan_url);
    assert(s.subrange(b1, c0) =~= ",\"DataType\":\""@);
    assert(sp_lit_at(s, b1, ",\"DataType\":\""@));
    assert(s.subrange(c0, c0 + e3.len() + 1) =~= e3 + seq!['"']);
    json_text::lemma_str_body_complete(s, c0, q.data_type);
    assert(s.subrange(c1, d0) =~= ",\"DataExtension\":\""@);
    assert(sp_lit_at(s, c1, ",\"DataExtension\":\""@));
    assert(s.subrange(d0, d0 + e4.len() + 1) =~= e4 + seq!['"']);
    json_text::lemma_str_body_complete(s, d0, q.data_extension);
    assert(s.subrange(d1, d1 + 1) =~= "}"@);
    assert(sp_lit_at(s, d1, "}"@));
    assert(sp_parse_queue_item(s) == Some(
        WorkQueueDataV {
            image_hash: q.image_hash,
            scan_url: q.scan_url,
            data_type: q.data_type,
            data_extension: q.data_extension,
        },
    ));
}

} // verus!

verus! {

/// Two distinct descriptors never share their canonical JSON text.
pub proof fn lemma_queue_encoding_injective(q1: WorkQueueDataV, q2: WorkQueueDataV)
    requires
        spec_queue_item_json(q1) == spec_queue_item_json(q2),
    ensures
        q1 == q2,
{
    lemma_queue_item_round_trip(q1);
    lemma_queue_item_round_trip(q2);
}

/// The queue parser accepts only canonical text: whatever it yields a
/// descriptor for is that descriptor's canonical JSON text. Together with
/// [`lemma_queue_item_round_trip`], decoding is the exact inverse of
/// encoding.
#[verifier::rlimit(100)]
pub proof fn lemma_queue_item_parse_sound(s: Seq<char>, q: WorkQueueDataV)
    requires
        sp_parse_queue_item(s) == Some(q),
    ensures
        s == spec_queue_item_json(q),
{
    reveal_strlit("{\"ImageHash\":");
    reveal_strlit(",\"ScanUrl\":");
    reveal_strlit(",\"DataType\":");
    reveal_strlit(",\"DataExtension\":");
    reveal_strlit("}");
    reveal_strlit("{\"ImageHash\":\"");
    reveal_strlit(",\"ScanUrl\":\"");
    reveal_strlit(",\"DataType\":\"");
    reveal_strlit(",\"DataExtension\":\"");
    let r1 = sp_str_body(s, 14);
    let pr1 = r1->0;
    let h = pr1.0;
    let a = pr1.1;
    json_text::lemma_str_body_sound(s, 14);
    let r2 = sp_str_body(s, a + 12);
    let pr2 = r2->0;
    let u = pr2.0;
    let b = pr2.1;
    json_text::lemma_str_body_sound(s, a + 12);
    let r3 = sp_str_body(s, b + 13);
    let pr3 = r3->0;
    let t = pr3.0;
    let c = pr3.1;
    json_text::lemma_str_body_sound(s, b + 13);
    let r4 = sp_str_body(s, c + 18);
    let pr4 = r4->0;
    let e = pr4.0;
    let d = pr4.1;
    json_text::lemma_str_body_sound(s, c + 18);
    assert(q.image_hash == h);
    assert(q.scan_url == u);
    assert(q.data_type == t);
    assert(q.data_extension == e);
    assert(s.len() == d + 1);
    assert(s.subrange(0, 14) == "{\"ImageHash\":\""@);
    assert(s.subrange(14, a) == esc_seq(h) + seq!['"']);
    assert(s.subrange(a, a + 12) == ",\"ScanUrl\":\""@);
    assert(s.subrange(a + 12, b) == esc_seq(u) + seq!['"']);
    assert(s.subrange(b, b + 13) == ",\"DataType\":\""@);
    assert(s.subrange(b + 13, c) == esc_seq(t) + seq!['"']);
    assert(s.subrange(c, c + 18) == ",\"DataExtension\":\""@);
    assert(s.subrange(c + 18, d) == esc_seq(e) + seq!['"']);
    assert(s.subrange(d, d + 1) == "}"@);
    assert(s =~= spec_queue_item_json(q)) by {
        assert forall|k: int| 0 <= k < s.len() implies s[k] == spec_queue_item_json(q)[k] by {
            if k < 14 {
                assert(s[k] == s.subrange(0, 14)[k]);
            } else if k < a {
                assert(s[k] == s.subrange(14, a)[k - 14]);
            } else if k < a + 12 {
                assert(s[k] == s.subrange(a, a + 12)[k - a]);
            } else if k < b {
                assert(s[k] == s.subrange(a + 12, b)[k - (a + 12)]);
            } else if k < b + 13 {
                assert(s[k] == s.subrange(b, b + 13)[k - b]);
            } else if k < c {
                assert(s[k] == s.subrange(b + 13, c)[k - (b + 13)]);
            } else if k < c + 18 {
                assert(s[k] == s.subrange(c, c + 18)[k - c]);
            } else if k < d {
                assert(s[k] == s.subrange(c + 18, d)[k - (c + 18)]);
            } else {
                assert(s[k] == s.subrange(d, d + 1)[k - d]);
            }
        }
    }
}

} // verus!
