use crate::util::buffer::{bytes_content, bytes_from_vec};
use crate::data::db::BrokerDB;
use crate::util::db::ArcDb;
use crate::util::push_char;
use bytes::Bytes;
use vstd::prelude::*;
use vstd::utf8::encode_utf8;
use vstd::string::StrSliceExecFns;

pub mod impls;

verus! {

/// Quality of service of an MQTT subscription or publication.
#[derive(Clone, Copy, Debug, PartialEq, Eq, Structural)]
pub enum QoS {
    AtMostOnce,
    AtLeastOnce,
    ExactlyOnce,
}

/// The wire number of a quality of service level.
pub open spec fn qos_number(q: QoS) -> u8 {
    match q {
        QoS::AtMostOnce => 0u8,
        QoS::AtLeastOnce => 1u8,
        QoS::ExactlyOnce => 2u8,
    }
}

impl Default for QoS {
    fn default() -> (r: Self)
        ensures
            r == QoS::AtMostOnce,
    {
        QoS::AtMostOnce
    }
}

impl QoS {
    /// The number of the level: 0, 1 or 2.
    pub fn to_u8(&self) -> (r: u8)
        ensures
            r == qos_number(*self),
    {
        match self {
            QoS::AtMostOnce => 0,
            QoS::AtLeastOnce => 1,
            QoS::ExactlyOnce => 2,
        }
    }

    /// The number of the level as text: "0", "1" or "2".
    pub fn to_string(&self) -> (r: String)
        ensures
            r@ == seq![crate::util::digit_char(qos_number(*self) as nat)],
    {
        let mut s = String::new();
        match self {
            QoS::AtMostOnce => push_char(&mut s, '0'),
            QoS::AtLeastOnce => push_char(&mut s, '1'),
            QoS::ExactlyOnce => push_char(&mut s, '2'),
        }
        s
    }
}

/// How a message's text is turned into payload bytes: plain text, JSON text,
/// or hexadecimal digits.
#[derive(Clone, Copy, Debug, PartialEq, Eq, Structural)]
pub enum PayloadTy {
    Text,
    Json,
    Hex,
}

impl Default for PayloadTy {
    fn default() -> (r: Self)
        ensures
            r == PayloadTy::Text,
    {
        PayloadTy::Text
    }
}

/// Why a message's text could not be turned into a payload.
#[derive(Clone, Debug, PartialEq, Eq)]
pub enum PayloadError {
    /// The text is not JSON; holds the JSON parser's message.
    InvalidJson(String),
    /// After dropping every character that is not a hexadecimal digit, an odd
    /// number of digits is left.
    OddHexDigits,
}

/// The pretty-printed form of a JSON text: `None` when `serde_json` does not
/// accept the text as JSON, else the text that `serde_json` prints for the
/// parsed value with its pretty printer.
pub uninterp spec fn pretty_json(text: Seq<char>) -> Option<Seq<char>>;

/// Parses `data` as a `serde_json::Value` (`serde_json::from_str`) and prints
/// it back with `serde_json::to_string_pretty`; an error of either becomes
/// its message (the error's `Display` text).
///
/// Trusted: both calls are deterministic, so the outcome is a function of
/// the text alone; it is named `pretty_json` as a whole, because the parsed
/// value in between is opaque here. What `pretty_json` is on given texts is
/// not stated, nor what an error's message says.
#[verifier::external_body]
fn to_pretty_json_from_str(data: &str) -> (r: Result<String, String>)
    ensures
        r is Ok <==> pretty_json(data@) is Some,
        r matches Ok(s) ==> pretty_json(data@) == Some(s@),
{
    match serde_json::from_str::<serde_json::Value>(data) {
        Ok(json) => serde_json::to_string_pretty(&json).map_err(|e| e.to_string()),
        Err(e) => Err(e.to_string()),
    }
}

/// Whether a character is an ASCII hexadecimal digit.
pub open spec fn is_hex_digit(c: char) -> bool {
    ('0' <= c && c <= '9') || ('a' <= c && c <= 'f') || ('A' <= c && c <= 'F')
}

/// The value of an ASCII hexadecimal digit.
pub open spec fn hex_value(c: char) -> int {
    if '0' <= c && c <= '9' {
        c as int - '0' as int
    } else if 'a' <= c && c <= 'f' {
        c as int - 'a' as int + 10
    } else {
        c as int - 'A' as int + 10
    }
}

/// The hexadecimal digits of a text, in order; every other character dropped.
pub open spec fn hex_digits(s: Seq<char>) -> Seq<char>
    decreases s.len(),
{
    if s.len() == 0 {
        seq![]
    } else if is_hex_digit(s.last()) {
        hex_digits(s.drop_last()).push(s.last())
    } else {
        hex_digits(s.drop_last())
    }
}

/// Hexadecimal digits shown in pairs: a space follows every second digit.
pub open spec fn hex_grouped(d: Seq<char>) -> Seq<char>
    decreases d.len(),
{
    if d.len() == 0 {
        seq![]
    } else if d.len() % 2 == 0 {
        hex_grouped(d.drop_last()).push(d.last()).push(' ')
    } else {
        hex_grouped(d.drop_last()).push(d.last())
    }
}

/// The bytes that pairs of hexadecimal digits stand for, the first digit of
/// a pair being the high half of the byte.
pub open spec fn hex_bytes(d: Seq<char>) -> Seq<u8> {
    Seq::new(d.len() / 2, |i: int| (hex_value(d[2 * i]) * 16 + hex_value(d[2 * i + 1])) as u8)
}

/// What `PayloadTy::to_bytes` gives back for a message text, over the payload
/// bytes and the text shown for it.
pub open spec fn payload_of(ty: PayloadTy, msg: Seq<char>) -> Option<(Seq<u8>, Seq<char>)> {
    match ty {
        PayloadTy::Text => Some((encode_utf8(msg), msg)),
        PayloadTy::Json => match pretty_json(msg) {
            Some(p) => Some((encode_utf8(msg), p)),
            None => None,
        },
        PayloadTy::Hex => {
            let d = hex_digits(msg);
            if d.len() % 2 == 0 {
                Some((hex_bytes(d), hex_grouped(d)))
            } else {
                None
            }
        },
    }
}

fn is_ascii_hexdigit(c: char) -> (r: bool)
    ensures
        r == is_hex_digit(c),
{
    ('0' <= c && c <= '9') || ('a' <= c && c <= 'f') || ('A' <= c && c <= 'F')
}

fn hex_digit_value(c: char) -> (r: u8)
    requires
        is_hex_digit(c),
    ensures
        r == hex_value(c),
        r < 16,
{
    let v = c as u32;
    if '0' <= c && c <= '9' {
        (v - ('0' as u32)) as u8
    } else if 'a' <= c && c <= 'f' {
        (v - ('a' as u32) + 10) as u8
    } else {
        (v - ('A' as u32) + 10) as u8
    }
}

proof fn lemma_hex_digits_step(s: Seq<char>, i: int)
    requires
        0 <= i < s.len(),
    ensures
        hex_digits(s.take(i + 1)) == if is_hex_digit(s[i]) {
            hex_digits(s.take(i)).push(s[i])
        } else {
            hex_digits(s.take(i))
        },
{
    assert(s.take(i + 1).drop_last() =~= s.take(i));
    assert(s.take(i + 1).last() == s[i]);
}

proof fn lemma_join_pair(hi: u8, lo: u8)
    requires
        hi < 16,
        lo < 16,
    ensures
        ((hi << 4u8) | lo) as int == hi * 16 + lo,
{
    assert(((hi << 4u8) | lo) == hi * 16 + lo) by (bit_vector)
        requires
            hi < 16,
            lo < 16,
    ;
}

impl PayloadTy {
    /// Turns a message's text into the payload to publish and the text to show
    /// for it.
    ///
    /// Text: the UTF-8 bytes of the message, shown as it is. Json: the UTF-8
    /// bytes of the message, shown pretty-printed; an error when it is not
    /// JSON. Hex: every character that is not a hexadecimal digit is dropped,
    /// each pair of digits is one byte, and the digits are shown in pairs; an
    /// error when an odd number of digits is left.
    pub fn to_bytes(&self, msg: &String) -> (r: Result<(Bytes, String), PayloadError>)
        ensures
            match payload_of(*self, msg@) {
                Some((b, s)) => r matches Ok((rb, rs)) && bytes_content(rb) == b && rs@ == s,
                None => r is Err,
            },
            (*self == PayloadTy::Hex && hex_digits(msg@).len() % 2 == 1) ==> r == Err::<
                (Bytes, String),
                PayloadError,
            >(PayloadError::OddHexDigits),
            (*self == PayloadTy::Json && pretty_json(msg@) is None) ==> r matches Err(
                PayloadError::InvalidJson(_),
            ),
    {
        match self {
            PayloadTy::Text => Ok((bytes_from_vec(msg.as_str().as_bytes_vec()), msg.clone())),
            PayloadTy::Json => json_payload(msg, to_pretty_json_from_str(msg.as_str())),
            PayloadTy::Hex => hex_payload(msg),
        }
    }
}

/// The payload of a JSON message, given what pretty-printing its text gave:
/// the UTF-8 bytes of the message, shown as printed; when printing failed,
/// an invalid-JSON error with the printer's message.
pub fn json_payload(msg: &String, printed: Result<String, String>) -> (r: Result<
    (Bytes, String),
    PayloadError,
>)
    ensures
        match printed {
            Ok(p) => r matches Ok((rb, rs)) && bytes_content(rb) == encode_utf8(msg@) && rs == p,
            Err(e) => r == Err::<(Bytes, String), PayloadError>(PayloadError::InvalidJson(e)),
        },
{
    match printed {
        Ok(p) => Ok((bytes_from_vec(msg.as_str().as_bytes_vec()), p)),
        Err(e) => Err(PayloadError::InvalidJson(e)),
    }
}

fn hex_payload(msg: &String) -> (r: Result<(Bytes, String), PayloadError>)
    ensures
        ({
            let d = hex_digits(msg@);
            if d.len() % 2 == 0 {
                r matches Ok((rb, rs)) && bytes_content(rb) == hex_bytes(d) && rs@ == hex_grouped(d)
            } else {
                r == Err::<(Bytes, String), PayloadError>(PayloadError::OddHexDigits)
            }
        }),
{
    let ghost text = msg@;
    let s = msg.as_str();
    let n: usize = s.unicode_len();
    let mut hex_datas: Vec<u8> = Vec::new();
    let mut data_str = String::new();
    let mut len: usize = 0;
    for c in it: s.chars()
        invariant
            s@ == text,
            n == text.len(),
            it.seq() == text,
            len <= it.index(),
            len == hex_datas@.len(),
            len == hex_digits(text.take(it.index() as int)).len(),
            forall|j: int|
                0 <= j < len ==> #[trigger] hex_datas@[j] == hex_value(
                    hex_digits(text.take(it.index() as int))[j],
                ),
            forall|j: int| 0 <= j < len ==> is_hex_digit(#[trigger] hex_digits(text.take(it.index() as int))[j]),
            data_str@ == hex_grouped(hex_digits(text.take(it.index() as int))),
    {
        let ghost k = it.index() as int;
        proof {
            lemma_hex_digits_step(text, k);
        }
        if is_ascii_hexdigit(c) {
            let ghost d = hex_digits(text.take(k));
            hex_datas.push(hex_digit_value(c));
            len = len + 1;
            push_char(&mut data_str, c);
            if len % 2 == 0 {
                push_char(&mut data_str, ' ');
            }
            proof {
                let d2 = d.push(c);
                assert(d2.drop_last() =~= d);
                assert(hex_digits(text.take(k + 1)) == d2);
            }
        }
    }
    assert(text.take(text.len() as int) =~= text);
    if len % 2 != 0 {
        return Err(PayloadError::OddHexDigits);
    }
    let ghost d = hex_digits(text);
    let mut i: usize = 0;
    let mut datas: Vec<u8> = Vec::new();
    while i < len
        invariant
            len == hex_datas@.len(),
            len == d.len(),
            len % 2 == 0,
            i % 2 == 0,
            0 <= i <= len,
            datas@.len() == i / 2,
            forall|j: int| 0 <= j < len ==> #[trigger] hex_datas@[j] == hex_value(d[j]),
            forall|j: int| 0 <= j < len ==> hex_datas@[j] < 16,
            forall|j: int| 0 <= j < datas@.len() ==> #[trigger] datas@[j] == hex_bytes(d)[j],
        decreases len - i,
    {
        let hi = hex_datas[i];
        let lo = hex_datas[i + 1];
        proof {
            lemma_join_pair(hi, lo);
        }
        datas.push((hi << 4u8) | lo);
        i = i + 2;
    }
    assert(datas@ =~= hex_bytes(d));
    Ok((bytes_from_vec(datas), data_str))
}


/// A number that tells apart the requests of one run of the program.
#[derive(Copy, Clone, Debug, Eq, PartialEq, Structural)]
pub struct Id(u32);

impl Id {
    /// The number of the id.
    pub closed spec fn number(self) -> u32 {
        self.0
    }

    /// The id with the given number.
    pub fn new(n: u32) -> (r: Self)
        ensures
            r.number() == n,
    {
        Id(n)
    }
}

/// A subscription to make on a broker.
#[derive(Clone, Debug)]
pub struct SubscribeTopic {
    pub broker_id: usize,
    pub trace_id: u32,
    pub topic: String,
    pub qos: QoS,
    pub payload_ty: PayloadTy,
}

/// A subscription remembered in a broker's history.
#[derive(Debug)]
pub struct SubscribeHis {
    pub topic: String,
    pub qos: QoS,
    pub payload_ty: PayloadTy,
}

impl PartialEq for SubscribeHis {
    fn eq(&self, other: &Self) -> (r: bool) {
        self.topic == other.topic && self.qos == other.qos && self.payload_ty == other.payload_ty
    }
}

impl vstd::std_specs::cmp::PartialEqSpecImpl for SubscribeHis {
    open spec fn obeys_eq_spec() -> bool {
        true
    }

    open spec fn eq_spec(&self, other: &Self) -> bool {
        self.topic@ == other.topic@ && self.qos == other.qos && self.payload_ty == other.payload_ty
    }
}

impl Eq for SubscribeHis {

}

impl Clone for SubscribeHis {
    fn clone(&self) -> (r: Self)
        ensures
            r == *self,
    {
        SubscribeHis { topic: self.topic.clone(), qos: self.qos, payload_ty: self.payload_ty }
    }
}

/// A publication remembered in a broker's history.
#[derive(Debug)]
pub struct PublishHis {
    pub topic: String,
    pub msg: String,
    pub qos: QoS,
    pub payload_ty: PayloadTy,
    pub retain: bool,
}

impl PartialEq for PublishHis {
    fn eq(&self, other: &Self) -> (r: bool) {
        self.topic == other.topic && self.msg == other.msg && self.qos == other.qos
            && self.payload_ty == other.payload_ty && self.retain == other.retain
    }
}

impl vstd::std_specs::cmp::PartialEqSpecImpl for PublishHis {
    open spec fn obeys_eq_spec() -> bool {
        true
    }

    open spec fn eq_spec(&self, other: &Self) -> bool {
        self.topic@ == other.topic@ && self.msg@ == other.msg@ && self.qos == other.qos
            && self.payload_ty == other.payload_ty && self.retain == other.retain
    }
}

impl Eq for PublishHis {

}

impl Clone for PublishHis {
    fn clone(&self) -> (r: Self)
        ensures
            r == *self,
    {
        PublishHis {
            topic: self.topic.clone(),
            msg: self.msg.clone(),
            qos: self.qos,
            payload_ty: self.payload_ty,
            retain: self.retain,
        }
    }
}

impl From<PublishInput> for PublishHis {
    fn from(value: PublishInput) -> (r: Self) {
        let PublishInput { topic, msg, qos, retain, payload_ty, .. } = value;
        Self { topic, msg, qos, payload_ty, retain }
    }
}

impl vstd::std_specs::convert::FromSpecImpl<PublishInput> for PublishHis {
    open spec fn obeys_from_spec() -> bool {
        true
    }

    open spec fn from_spec(v: PublishInput) -> Self {
        PublishHis {
            topic: v.topic,
            msg: v.msg,
            qos: v.qos,
            payload_ty: v.payload_ty,
            retain: v.retain,
        }
    }
}

/// A message shown in a broker's tab.
#[derive(Debug, Clone, Eq, PartialEq)]
pub enum Msg {
    Public(PublicMsg),
    Subscribe(SubscribeMsg),
}

/// A message this client published.
#[derive(Debug, Clone, Eq, PartialEq)]
pub struct PublicMsg {
    pub trace_id: u32,
    pub topic: String,
    pub msg: String,
    pub qos: String,
    pub payload_ty: String,
    pub time: String,
}

/// A publication the user asks for.
#[derive(Debug, Clone)]
pub struct PublishInput {
    pub broker_id: usize,
    pub topic: String,
    pub msg: String,
    pub qos: QoS,
    pub retain: bool,
    pub trace_id: u32,
    pub payload_ty: PayloadTy,
}

/// A message received on a subscription.
#[derive(Clone, Debug, Eq, PartialEq)]
pub struct SubscribeMsg {
    pub topic: String,
    pub msg: String,
    pub qos: String,
    pub payload_ty: String,
    pub time: String,
}

/// A subscription the user asks for.
#[derive(Debug, Clone)]
pub struct SubscribeInput {
    pub broker_id: usize,
    pub trace_id: u32,
    pub topic: String,
    pub qos: QoS,
    pub payload_ty: PayloadTy,
}

/// A broker known to the program, with the store ledger it is saved through.
#[derive(Debug)]
pub struct Broker {
    pub data: BrokerDB,
    pub db: ArcDb,
}

impl Clone for Broker {
    fn clone(&self) -> (r: Self)
        ensures
            r.data.same(self.data),
            r.db.same(self.db),
    {
        Broker { data: self.data.clone(), db: self.db.clone() }
    }
}

/// The MQTT protocol version.
#[derive(Debug, Clone, Copy, PartialEq, Eq, Structural)]
pub enum Protocol {
    V4,
    V5,
}

/// How a broker's certificate is checked.
#[derive(Debug, Clone, Copy, PartialEq, Eq, Structural)]
pub enum SignedTy {
    Ca,
    SelfSigned,
    Insecurity,
}


proof fn lemma_hex_digits_push(s: Seq<char>, c: char)
    ensures
        hex_digits(s.push(c)) == if is_hex_digit(c) {
            hex_digits(s).push(c)
        } else {
            hex_digits(s)
        },
{
    assert(s.push(c).drop_last() =~= s);
}

proof fn lemma_hex_digits_are_hex(s: Seq<char>)
    ensures
        forall|i: int| 0 <= i < hex_digits(s).len() ==> is_hex_digit(#[trigger] hex_digits(s)[i]),
    decreases s.len(),
{
    if s.len() > 0 {
        let p = s.drop_last();
        lemma_hex_digits_are_hex(p);
        assert(p.push(s.last()) =~= s);
        lemma_hex_digits_push(p, s.last());
        let h = hex_digits(s);
        assert forall|i: int| 0 <= i < h.len() implies is_hex_digit(#[trigger] h[i]) by {
            if i < hex_digits(p).len() {
                assert(h[i] == hex_digits(p)[i]);
            }
        }
    }
}

proof fn lemma_hex_digits_of_grouped(d: Seq<char>)
    requires
        forall|i: int| 0 <= i < d.len() ==> is_hex_digit(#[trigger] d[i]),
    ensures
        hex_digits(hex_grouped(d)) == d,
    decreases d.len(),
{
    if d.len() > 0 {
        let p = d.drop_last();
        assert forall|i: int| 0 <= i < p.len() implies is_hex_digit(#[trigger] p[i]) by {
            assert(p[i] == d[i]);
        }
        lemma_hex_digits_of_grouped(p);
        let g = hex_grouped(p);
        assert(is_hex_digit(d[d.len() - 1]));
        lemma_hex_digits_push(g, d.last());
        if d.len() % 2 == 0 {
            lemma_hex_digits_push(g.push(d.last()), ' ');
        }
        assert(p.push(d.last()) =~= d);
    }
}

/// The text shown for a hexadecimal payload gives back the same payload and
/// the same text when it is encoded again.
pub proof fn law_hex_shown_text_is_stable(msg: Seq<char>)
    ensures
        payload_of(PayloadTy::Hex, msg) matches Some((bytes, shown)) ==> payload_of(
            PayloadTy::Hex,
            shown,
        ) == Some((bytes, shown)),
{
    lemma_hex_digits_are_hex(msg);
    lemma_hex_digits_of_grouped(hex_digits(msg));
}

/// Only the hexadecimal digits of a text matter to its hexadecimal payload,
/// and two digits make one byte.
pub proof fn law_hex_payload_length(msg: Seq<char>)
    ensures
        payload_of(PayloadTy::Hex, msg) matches Some((bytes, _)) ==> bytes.len() * 2 == hex_digits(
            msg,
        ).len(),
        payload_of(PayloadTy::Hex, msg) == payload_of(PayloadTy::Hex, hex_digits(msg)),
{
    lemma_hex_digits_are_hex(msg);
    lemma_hex_digits_of_hex(hex_digits(msg));
}

proof fn lemma_hex_digits_of_hex(d: Seq<char>)
    requires
        forall|i: int| 0 <= i < d.len() ==> is_hex_digit(#[trigger] d[i]),
    ensures
        hex_digits(d) == d,
    decreases d.len(),
{
    if d.len() > 0 {
        let p = d.drop_last();
        assert forall|i: int| 0 <= i < p.len() implies is_hex_digit(#[trigger] p[i]) by {
            assert(p[i] == d[i]);
        }
        lemma_hex_digits_of_hex(p);
        assert(is_hex_digit(d[d.len() - 1]));
        assert(p.push(d.last()) =~= d);
    }
}

/// The hexadecimal encoding keeps exactly the ASCII hexadecimal digits, of
/// either case: a doubled digit `c` is the one byte of value 17 times the
/// digit's value, shown as the two digits and a space; a doubled character
/// of any other kind is dropped, giving no byte and no text.
pub proof fn law_hex_keeps_ascii_hex_digits(c: char)
    ensures
        ('0' <= c && c <= '9') ==> payload_of(PayloadTy::Hex, seq![c, c]) == Some(
            (seq![(17 * (c as int - '0' as int)) as u8], seq![c, c, ' ']),
        ),
        ('a' <= c && c <= 'f') ==> payload_of(PayloadTy::Hex, seq![c, c]) == Some(
            (seq![(17 * (c as int - 'a' as int + 10)) as u8], seq![c, c, ' ']),
        ),
        ('A' <= c && c <= 'F') ==> payload_of(PayloadTy::Hex, seq![c, c]) == Some(
            (seq![(17 * (c as int - 'A' as int + 10)) as u8], seq![c, c, ' ']),
        ),
        !(('0' <= c && c <= '9') || ('a' <= c && c <= 'f') || ('A' <= c && c <= 'F'))
            ==> payload_of(PayloadTy::Hex, seq![c, c]) == Some(
            (Seq::<u8>::empty(), Seq::<char>::empty()),
        ),
{
    let s = seq![c, c];
    assert(s.drop_last() =~= seq![c]);
    assert(seq![c].drop_last() =~= Seq::<char>::empty());
    assert(hex_digits(Seq::<char>::empty()) == Seq::<char>::empty());
    let d1 = hex_digits(seq![c]);
    let d = hex_digits(s);
    if is_hex_digit(c) {
        assert(d1 =~= seq![c]);
        assert(d =~= seq![c, c]);
        assert(d.drop_last() =~= seq![c]);
        assert(seq![c].drop_last() =~= Seq::<char>::empty());
        assert(hex_grouped(Seq::<char>::empty()) == Seq::<char>::empty());
        assert(seq![c].len() == 1 && seq![c].last() == c);
        assert(hex_grouped(seq![c]) == hex_grouped(Seq::<char>::empty()).push(c));
        assert(hex_grouped(seq![c]) =~= seq![c]);
        assert(hex_grouped(d) =~= seq![c, c, ' ']);
        let v = hex_value(c);
        assert(hex_bytes(d) =~= seq![(v * 16 + v) as u8]);
        assert(v * 16 + v == 17 * v);
    } else {
        assert(d1 =~= Seq::<char>::empty());
        assert(d =~= Seq::<char>::empty());
        assert(hex_bytes(d) =~= Seq::<u8>::empty());
    }
}

proof fn lemma_grouped_pairs(d: Seq<char>)
    requires
        d.len() % 2 == 0,
    ensures
        hex_grouped(d).len() == 3 * (d.len() / 2),
        forall|i: int|
            0 <= i < d.len() / 2 ==> {
                &&& #[trigger] hex_grouped(d)[3 * i] == d[2 * i]
                &&& hex_grouped(d)[3 * i + 1] == d[2 * i + 1]
                &&& hex_grouped(d)[3 * i + 2] == ' '
            },
    decreases d.len(),
{
    if d.len() > 0 {
        let p = d.drop_last();
        let q = p.drop_last();
        lemma_grouped_pairs(q);
        assert(hex_grouped(p) == hex_grouped(q).push(p.last()));
        let g = hex_grouped(d);
        assert(g == hex_grouped(q).push(d[d.len() - 2]).push(d[d.len() - 1]).push(' '));
        assert forall|i: int| 0 <= i < d.len() / 2 implies {
            &&& #[trigger] g[3 * i] == d[2 * i]
            &&& g[3 * i + 1] == d[2 * i + 1]
            &&& g[3 * i + 2] == ' '
        } by {
            if i < q.len() / 2 {
                assert(hex_grouped(q)[3 * i] == q[2 * i]);
                assert(q[2 * i] == d[2 * i] && q[2 * i + 1] == d[2 * i + 1]);
            }
        }
    }
}

/// A hexadecimal payload is made of the text's digit pairs in order: with
/// an even number of digits, byte `i` is the value of digit `2i` times 16
/// plus the value of digit `2i + 1`, and the shown text is the digits with a
/// space after each pair; with an odd number there is no payload.
pub proof fn law_hex_pairs_in_order(msg: Seq<char>)
    ensures
        hex_digits(msg).len() % 2 == 1 ==> payload_of(PayloadTy::Hex, msg) is None,
        hex_digits(msg).len() % 2 == 0 ==> (payload_of(PayloadTy::Hex, msg) matches Some((b, t)) && {
            let d = hex_digits(msg);
            &&& b.len() * 2 == d.len()
            &&& t.len() == 3 * b.len()
            &&& forall|i: int|
                0 <= i < b.len() ==> {
                    &&& #[trigger] b[i] == (hex_value(d[2 * i]) * 16 + hex_value(d[2 * i + 1])) as u8
                    &&& t[3 * i] == d[2 * i]
                    &&& t[3 * i + 1] == d[2 * i + 1]
                    &&& t[3 * i + 2] == ' '
                }
        }),
{
    let d = hex_digits(msg);
    if d.len() % 2 == 0 {
        lemma_grouped_pairs(d);
        let b = hex_bytes(d);
        let t = hex_grouped(d);
        assert forall|i: int| 0 <= i < b.len() implies {
            &&& #[trigger] b[i] == (hex_value(d[2 * i]) * 16 + hex_value(d[2 * i + 1])) as u8
            &&& t[3 * i] == d[2 * i]
            &&& t[3 * i + 1] == d[2 * i + 1]
            &&& t[3 * i + 2] == ' '
        } by {
            assert(t[3 * i] == d[2 * i]);
        }
    }
}

} // verus!
