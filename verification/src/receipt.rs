use vstd::prelude::*;
use vstd::string::StringExecFns;

use crate::codec::{
    decimal_text, decimal_u64, hex_digit, lemma_uuid_text_injective, hex_encode, hex_text, sha256, sha256_digest, uuid_text,
    uuid_text_spec,
};
use crate::device::{clone_opt_text, opt_text_view};
use crate::session::SessionId;
use crate::time::{chrono_rfc3339, rfc3339_text, Timestamp};

verus! {

// ── JSON text ────────────────────────────────────────────────────────────────

/// How serde_json writes one character inside a JSON string.
pub open spec fn json_escape_char(c: char) -> Seq<char> {
    if c == '"' {
        seq!['\\', '"']
    } else if c == '\\' {
        seq!['\\', '\\']
    } else if c == '\u{8}' {
        seq!['\\', 'b']
    } else if c == '\u{c}' {
        seq!['\\', 'f']
    } else if c == '\n' {
        seq!['\\', 'n']
    } else if c == '\r' {
        seq!['\\', 'r']
    } else if c == '\t' {
        seq!['\\', 't']
    } else if (c as u32) < 0x20 {
        seq!['\\', 'u', '0', '0', hex_digit((c as u32) as int / 16), hex_digit((c as u32) as int % 16)]
    } else {
        seq![c]
    }
}

/// The escaped characters of a JSON string's contents.
pub open spec fn json_escape(s: Seq<char>) -> Seq<char>
    decreases s.len(),
{
    if s.len() == 0 {
        Seq::empty()
    } else {
        json_escape(s.drop_last()) + json_escape_char(s.last())
    }
}

/// A text as a JSON string literal.
pub open spec fn json_quoted(s: Seq<char>) -> Seq<char> {
    seq!['"'] + json_escape(s) + seq!['"']
}

// ── JSON texts read back ─────────────────────────────────────────────────────

/// Escaping a text escapes its parts one after the other.
proof fn lemma_escape_concat(a: Seq<char>, b: Seq<char>)
    ensures
        json_escape(a + b) == json_escape(a) + json_escape(b),
    decreases b.len(),
{
    if b.len() == 0 {
        assert(a + b =~= a);
        assert(json_escape(a) + json_escape(b) =~= json_escape(a));
    } else {
        lemma_escape_concat(a, b.drop_last());
        assert((a + b).drop_last() =~= a + b.drop_last());
        assert((a + b).last() == b.last());
        assert(json_escape(a + b) =~= json_escape(a) + json_escape(b));
    }
}

/// A non-empty text escapes as its first character's escape, then the rest's.
proof fn lemma_escape_first(s: Seq<char>)
    requires
        s.len() > 0,
    ensures
        json_escape(s) == json_escape_char(s[0]) + json_escape(s.skip(1)),
{
    let head = seq![s[0]];
    assert(s =~= head + s.skip(1));
    lemma_escape_concat(head, s.skip(1));
    assert(head.drop_last() =~= Seq::<char>::empty());
    assert(json_escape(head.drop_last()) =~= Seq::<char>::empty());
    assert(json_escape(head) =~= json_escape_char(s[0]));
}

/// An escaped character never starts with a bare quote, and one that does not
/// start with a backslash is the character itself.
proof fn lemma_escape_char_shape(c: char)
    ensures
        json_escape_char(c).len() >= 1,
        json_escape_char(c)[0] != '"',
        json_escape_char(c)[0] != '\\' ==> json_escape_char(c) == seq![c],
{
}

/// The escape of a character is read back from the front of any text it starts.
proof fn lemma_escape_char_unique(c1: char, c2: char, y1: Seq<char>, y2: Seq<char>)
    requires
        json_escape_char(c1) + y1 == json_escape_char(c2) + y2,
    ensures
        c1 == c2,
{
    let e1 = json_escape_char(c1);
    let e2 = json_escape_char(c2);
    let t = e1 + y1;
    lemma_escape_char_shape(c1);
    lemma_escape_char_shape(c2);
    assert(t[0] == e1[0]);
    assert(t[0] == e2[0]);
    if e1[0] != '\\' {
        assert(c1 == e1[0]);
        assert(c2 == e2[0]);
    } else {
        assert(t[1] == e1[1]);
        assert(t[1] == e2[1]);
        if e1[1] == 'u' {
            assert(t[4] == e1[4] && t[4] == e2[4]);
            assert(t[5] == e1[5] && t[5] == e2[5]);
            let v1 = c1 as u32 as int;
            let v2 = c2 as u32 as int;
            assert(v1 / 16 == v2 / 16);
            assert(v1 % 16 == v2 % 16);
            assert(v1 == v2);
        }
    }
}

/// An escaped text followed by a closing quote is read back from the front:
/// the quote that ends it is the first bare one.
proof fn lemma_escaped_then_quote(s1: Seq<char>, x1: Seq<char>, s2: Seq<char>, x2: Seq<char>)
    requires
        json_escape(s1) + (seq!['"'] + x1) == json_escape(s2) + (seq!['"'] + x2),
    ensures
        s1 == s2,
        x1 == x2,
    decreases s1.len(),
{
    let q1 = seq!['"'] + x1;
    let q2 = seq!['"'] + x2;
    if s1.len() == 0 {
        assert(json_escape(s1) + q1 =~= q1);
        if s2.len() > 0 {
            lemma_escape_first(s2);
            lemma_escape_char_shape(s2[0]);
            assert((json_escape(s2) + q2)[0] == json_escape_char(s2[0])[0]);
            assert(q1[0] == '"');
        }
        assert(json_escape(s2) =~= Seq::<char>::empty());
        assert(json_escape(s2) + q2 =~= q2);
        assert(x1 =~= q1.skip(1));
        assert(x2 =~= q2.skip(1));
        assert(s1 =~= s2);
    } else if s2.len() == 0 {
        lemma_escape_first(s1);
        lemma_escape_char_shape(s1[0]);
        assert((json_escape(s1) + q1)[0] == json_escape_char(s1[0])[0]);
        assert(json_escape(s2) + q2 =~= q2);
        assert(q2[0] == '"');
    } else {
        lemma_escape_first(s1);
        lemma_escape_first(s2);
        let r1 = json_escape(s1.skip(1)) + q1;
        let r2 = json_escape(s2.skip(1)) + q2;
        assert(json_escape(s1) + q1 =~= json_escape_char(s1[0]) + r1);
        assert(json_escape(s2) + q2 =~= json_escape_char(s2[0]) + r2);
        lemma_escape_char_unique(s1[0], s2[0], r1, r2);
        let e = json_escape_char(s1[0]);
        assert(r1 =~= (e + r1).skip(e.len() as int));
        assert(r2 =~= (e + r2).skip(e.len() as int));
        lemma_escaped_then_quote(s1.skip(1), x1, s2.skip(1), x2);
        assert(s1 =~= seq![s1[0]] + s1.skip(1));
        assert(s2 =~= seq![s2[0]] + s2.skip(1));
    }
}

/// A JSON string literal is read back from the front of any text it starts.
pub proof fn lemma_quoted_prefix(s1: Seq<char>, x1: Seq<char>, s2: Seq<char>, x2: Seq<char>)
    requires
        json_quoted(s1) + x1 == json_quoted(s2) + x2,
    ensures
        s1 == s2,
        x1 == x2,
{
    let t1 = json_escape(s1) + (seq!['"'] + x1);
    let t2 = json_escape(s2) + (seq!['"'] + x2);
    assert(json_quoted(s1) + x1 =~= seq!['"'] + t1);
    assert(json_quoted(s2) + x2 =~= seq!['"'] + t2);
    assert(t1 =~= (json_quoted(s1) + x1).skip(1));
    assert(t2 =~= (json_quoted(s2) + x2).skip(1));
    lemma_escaped_then_quote(s1, x1, s2, x2);
}

/// Decimal text is a non-empty run of digits.
proof fn lemma_decimal_digits(n: nat)
    ensures
        decimal_text(n).len() >= 1,
        n >= 10 ==> decimal_text(n).len() >= 2,
        forall|i: int| 0 <= i < decimal_text(n).len() ==> '0' <= #[trigger] decimal_text(n)[i] <= '9',
    decreases n,
{
    if n >= 10 {
        lemma_decimal_digits(n / 10);
        let d = decimal_text(n / 10);
        assert forall|i: int| 0 <= i < decimal_text(n).len() implies '0' <= #[trigger] decimal_text(
            n,
        )[i] <= '9' by {
            if i < d.len() {
                assert(decimal_text(n)[i] == d[i]);
            }
        }
    }
}

/// Different numbers have different decimal texts.
proof fn lemma_decimal_injective(n1: nat, n2: nat)
    requires
        decimal_text(n1) == decimal_text(n2),
    ensures
        n1 == n2,
    decreases n1,
{
    lemma_decimal_digits(n1);
    lemma_decimal_digits(n2);
    if n1 >= 10 && n2 >= 10 {
        let t = decimal_text(n1);
        assert(decimal_text(n1 / 10) =~= t.drop_last());
        assert(decimal_text(n2 / 10) =~= t.drop_last());
        let c1 = (('0' as int) + n1 % 10) as char;
        let c2 = (('0' as int) + n2 % 10) as char;
        assert(t.last() == c1);
        assert(decimal_text(n2).last() == c2);
        assert((c1 as int) == ('0' as int) + n1 % 10);
        assert((c2 as int) == ('0' as int) + n2 % 10);
        lemma_decimal_injective(n1 / 10, n2 / 10);
        assert(n1 == 10 * (n1 / 10) + n1 % 10);
        assert(n2 == 10 * (n2 / 10) + n2 % 10);
    } else if n1 < 10 && n2 < 10 {
        let c1 = (('0' as int) + n1) as char;
        let c2 = (('0' as int) + n2) as char;
        assert(decimal_text(n1)[0] == c1);
        assert(decimal_text(n2)[0] == c2);
        assert((c1 as int) == ('0' as int) + n1);
        assert((c2 as int) == ('0' as int) + n2);
    }
}

/// A decimal number followed by a text that starts with a non-digit is read
/// back from the front.
proof fn lemma_decimal_prefix(n1: nat, x1: Seq<char>, n2: nat, x2: Seq<char>)
    requires
        decimal_text(n1) + x1 == decimal_text(n2) + x2,
        x1.len() > 0 && !('0' <= x1[0] <= '9'),
        x2.len() > 0 && !('0' <= x2[0] <= '9'),
    ensures
        n1 == n2,
        x1 == x2,
{
    let d1 = decimal_text(n1);
    let d2 = decimal_text(n2);
    let t = d1 + x1;
    lemma_decimal_digits(n1);
    lemma_decimal_digits(n2);
    if d1.len() < d2.len() {
        assert(t[d1.len() as int] == x1[0]);
        assert((d2 + x2)[d1.len() as int] == d2[d1.len() as int]);
    } else if d2.len() < d1.len() {
        assert((d2 + x2)[d2.len() as int] == x2[0]);
        assert(t[d2.len() as int] == d1[d2.len() as int]);
    }
    assert(d1 =~= t.take(d1.len() as int));
    assert(d2 =~= (d2 + x2).take(d2.len() as int));
    lemma_decimal_injective(n1, n2);
    assert(x1 =~= t.skip(d1.len() as int));
    assert(x2 =~= (d2 + x2).skip(d2.len() as int));
}

/// An optional text in JSON (a string literal or `null`) is read back from
/// the front of any text it starts.
proof fn lemma_opt_text_prefix(t1: Option<Seq<char>>, x1: Seq<char>, t2: Option<Seq<char>>, x2: Seq<char>)
    requires
        json_opt_text(t1) + x1 == json_opt_text(t2) + x2,
    ensures
        t1 == t2,
        x1 == x2,
{
    reveal_strlit("null");
    let a = json_opt_text(t1) + x1;
    let b = json_opt_text(t2) + x2;
    match (t1, t2) {
        (Some(s1), Some(s2)) => {
            lemma_quoted_prefix(s1, x1, s2, x2);
        },
        (None, None) => {
            assert(x1 =~= a.skip(4));
            assert(x2 =~= b.skip(4));
        },
        (Some(s1), None) => {
            assert(a[0] == '"');
            assert(b[0] == 'n');
        },
        (None, Some(s2)) => {
            assert(a[0] == 'n');
            assert(b[0] == '"');
        },
    }
}

/// Two texts that start with the same text agree on what follows it.
proof fn lemma_strip(p: Seq<char>, a: Seq<char>, b: Seq<char>)
    requires
        p + a == p + b,
    ensures
        a == b,
{
    assert(a =~= (p + a).skip(p.len() as int));
    assert(b =~= (p + b).skip(p.len() as int));
}

/// A text as a JSON string literal.
///
/// Calls `serde_json::to_string` on the `&str`. Trusted: the text is the
/// quoted, escaped string (serde_json escapes `"`, `\` and the control
/// characters below U+0020, the latter as `\b \t \n \f \r` or `\u00xx`), and
/// serialising a string does not fail.
#[verifier::external_body]
fn json_string(s: &str) -> (r: String)
    ensures
        r@ == json_quoted(s@),
{
    serde_json::to_string(s).unwrap()
}

/// A JSON value that is a text or `null`.
pub open spec fn json_opt_text(v: Option<Seq<char>>) -> Seq<char> {
    match v {
        Some(s) => json_quoted(s),
        None => "null"@,
    }
}

fn json_opt_string(v: &Option<String>) -> (r: String)
    ensures
        r@ == json_opt_text(opt_text_view(*v)),
{
    match v {
        Some(s) => json_string(s.as_str()),
        None => String::from_str("null"),
    }
}

// ── receipt ──────────────────────────────────────────────────────────────────

/// How a session ended.
#[derive(Debug, Clone, Copy, PartialEq, Eq, Structural)]
pub enum SessionOutcome {
    /// Mission completed as intended.
    Success,
    /// Session ended by agent request before mission complete.
    AgentTerminated,
    /// Session ended by device owner override.
    OwnerRevoked,
    /// Broker detected a safety violation and terminated.
    SafetyViolation,
    /// Connectivity loss — device entered autonomous failsafe.
    ConnectivityLoss,
    /// Hardware fault.
    DeviceFault,
}

impl SessionOutcome {
    /// The variant's name, which is how serde writes it.
    pub open spec fn name_spec(self) -> Seq<char> {
        match self {
            SessionOutcome::Success => "Success"@,
            SessionOutcome::AgentTerminated => "AgentTerminated"@,
            SessionOutcome::OwnerRevoked => "OwnerRevoked"@,
            SessionOutcome::SafetyViolation => "SafetyViolation"@,
            SessionOutcome::ConnectivityLoss => "ConnectivityLoss"@,
            SessionOutcome::DeviceFault => "DeviceFault"@,
        }
    }

    /// The variant's name, which is how serde writes it.
    pub fn name(&self) -> (r: &'static str)
        ensures
            r@ == self.name_spec(),
    {
        match self {
            SessionOutcome::Success => "Success",
            SessionOutcome::AgentTerminated => "AgentTerminated",
            SessionOutcome::OwnerRevoked => "OwnerRevoked",
            SessionOutcome::SafetyViolation => "SafetyViolation",
            SessionOutcome::ConnectivityLoss => "ConnectivityLoss",
            SessionOutcome::DeviceFault => "DeviceFault",
        }
    }
}

/// A signed observation from a physical witness node.
#[derive(Debug)]
pub struct WitnessAttestation {
    pub witness_id: String,
    pub attested_at: Timestamp,
    /// What the witness physically observed.
    pub observation: String,
    pub outcome_hash: String,
    /// Base64-encoded Ed25519 signature.
    pub signature: String,
}

/// The value of a `WitnessAttestation`.
pub struct WitnessAttestationView {
    pub witness_id: Seq<char>,
    pub attested_at: Timestamp,
    pub observation: Seq<char>,
    pub outcome_hash: Seq<char>,
    pub signature: Seq<char>,
}

impl View for WitnessAttestation {
    type V = WitnessAttestationView;

    open spec fn view(&self) -> WitnessAttestationView {
        WitnessAttestationView {
            witness_id: self.witness_id@,
            attested_at: self.attested_at,
            observation: self.observation@,
            outcome_hash: self.outcome_hash@,
            signature: self.signature@,
        }
    }
}

impl Clone for WitnessAttestation {
    fn clone(&self) -> (r: Self)
        ensures
            r@ == self@,
    {
        WitnessAttestation {
            witness_id: self.witness_id.clone(),
            attested_at: self.attested_at,
            observation: self.observation.clone(),
            outcome_hash: self.outcome_hash.clone(),
            signature: self.signature.clone(),
        }
    }
}

/// The values of a list of witness attestations.
pub open spec fn witnesses_view(v: Seq<WitnessAttestation>) -> Seq<WitnessAttestationView> {
    Seq::new(v.len(), |i: int| v[i]@)
}

fn clone_witnesses(v: &Vec<WitnessAttestation>) -> (r: Vec<WitnessAttestation>)
    ensures
        witnesses_view(r@) == witnesses_view(v@),
{
    let mut r: Vec<WitnessAttestation> = Vec::new();
    for i in 0..v.len()
        invariant
            r@.len() == i,
            forall|j: int| 0 <= j < i ==> #[trigger] r@[j]@ == v@[j]@,
    {
        r.push(v[i].clone());
    }
    assert(witnesses_view(r@) =~= witnesses_view(v@));
    r
}

/// The audit trail produced at the end of a session.
#[derive(Debug)]
pub struct VcpReceipt {
    pub receipt_id: u128,
    pub session_id: SessionId,
    pub grant_id: u128,
    pub device_id: String,
    pub agent_did: String,
    pub owner_did: String,
    pub started_at: Timestamp,
    pub ended_at: Timestamp,
    pub outcome: SessionOutcome,
    pub message_count: u64,
    pub command_count: u64,
    pub telemetry_count: u64,
    /// SHA-256 of the ordered telemetry stream.
    pub telemetry_hash: Option<String>,
    /// SHA-256 of any trajectory data recorded.
    pub trajectory_hash: Option<String>,
    /// Link to the simulation proof that preceded physical execution.
    pub sim_proof_id: Option<String>,
    pub witnesses: Vec<WitnessAttestation>,
    /// Set after settlement.
    pub zangbeto_anchor: Option<String>,
    /// GIX1 canonical id (hex SHA-256) of this receipt.
    pub gix1_canonical_id: Option<String>,
    /// Ed25519 signature (hex) of the device over the canonical JSON.
    pub device_signature: String,
    /// Ed25519 signature (hex) of the agent over the canonical JSON.
    pub agent_signature: String,
}

/// The value of a `VcpReceipt`.
pub struct VcpReceiptView {
    pub receipt_id: u128,
    pub session_id: u128,
    pub grant_id: u128,
    pub device_id: Seq<char>,
    pub agent_did: Seq<char>,
    pub owner_did: Seq<char>,
    pub started_at: Timestamp,
    pub ended_at: Timestamp,
    pub outcome: SessionOutcome,
    pub message_count: u64,
    pub command_count: u64,
    pub telemetry_count: u64,
    pub telemetry_hash: Option<Seq<char>>,
    pub trajectory_hash: Option<Seq<char>>,
    pub sim_proof_id: Option<Seq<char>>,
    pub witnesses: Seq<WitnessAttestationView>,
    pub zangbeto_anchor: Option<Seq<char>>,
    pub gix1_canonical_id: Option<Seq<char>>,
    pub device_signature: Seq<char>,
    pub agent_signature: Seq<char>,
}

impl View for VcpReceipt {
    type V = VcpReceiptView;

    open spec fn view(&self) -> VcpReceiptView {
        VcpReceiptView {
            receipt_id: self.receipt_id,
            session_id: self.session_id,
            grant_id: self.grant_id,
            device_id: self.device_id@,
            agent_did: self.agent_did@,
            owner_did: self.owner_did@,
            started_at: self.started_at,
            ended_at: self.ended_at,
            outcome: self.outcome,
            message_count: self.message_count,
            command_count: self.command_count,
            telemetry_count: self.telemetry_count,
            telemetry_hash: opt_text_view(self.telemetry_hash),
            trajectory_hash: opt_text_view(self.trajectory_hash),
            sim_proof_id: opt_text_view(self.sim_proof_id),
            witnesses: witnesses_view(self.witnesses@),
            zangbeto_anchor: opt_text_view(self.zangbeto_anchor),
            gix1_canonical_id: opt_text_view(self.gix1_canonical_id),
            device_signature: self.device_signature@,
            agent_signature: self.agent_signature@,
        }
    }
}

impl Clone for VcpReceipt {
    fn clone(&self) -> (r: Self)
        ensures
            r@ == self@,
    {
        VcpReceipt {
            receipt_id: self.receipt_id,
            session_id: self.session_id,
            grant_id: self.grant_id,
            device_id: self.device_id.clone(),
            agent_did: self.agent_did.clone(),
            owner_did: self.owner_did.clone(),
            started_at: self.started_at,
            ended_at: self.ended_at,
            outcome: self.outcome,
            message_count: self.message_count,
            command_count: self.command_count,
            telemetry_count: self.telemetry_count,
            telemetry_hash: clone_opt_text(&self.telemetry_hash),
            trajectory_hash: clone_opt_text(&self.trajectory_hash),
            sim_proof_id: clone_opt_text(&self.sim_proof_id),
            witnesses: clone_witnesses(&self.witnesses),
            zangbeto_anchor: clone_opt_text(&self.zangbeto_anchor),
            gix1_canonical_id: clone_opt_text(&self.gix1_canonical_id),
            device_signature: self.device_signature.clone(),
            agent_signature: self.agent_signature.clone(),
        }
    }
}

/// The canonical JSON of a receipt that its hash commits to: the receipt,
/// session and grant ids, device, agent, start and end, outcome, message
/// count and the two optional hashes, as a compact object with its keys in
/// sorted order (serde_json's `Value::to_string` of a `json!` object).
pub open spec fn canonical_json(r: VcpReceiptView) -> Seq<char> {
    "{\"agent_did\":"@ + json_quoted(r.agent_did) + ",\"device_id\":"@ + json_quoted(r.device_id)
        + ",\"ended_at\":"@ + json_quoted(chrono_rfc3339(r.ended_at.secs_spec(), r.ended_at.nanos_spec()))
        + ",\"grant_id\":"@ + json_quoted(uuid_text_spec(r.grant_id)) + ",\"message_count\":"@
        + decimal_text(r.message_count as nat) + ",\"outcome\":"@ + json_quoted(r.outcome.name_spec())
        + ",\"receipt_id\":"@ + json_quoted(uuid_text_spec(r.receipt_id)) + ",\"session_id\":"@
        + json_quoted(uuid_text_spec(r.session_id)) + ",\"started_at\":"@ + json_quoted(
        chrono_rfc3339(r.started_at.secs_spec(), r.started_at.nanos_spec()),
    ) + ",\"telemetry_hash\":"@ + json_opt_text(r.telemetry_hash) + ",\"trajectory_hash\":"@
        + json_opt_text(r.trajectory_hash) + "}"@
}

/// The hash commits to exactly the canonical fields: two receipts that agree
/// on them have the same canonical JSON (hence the same hash), whatever their
/// counts, owner, witnesses, anchors or signatures.
pub proof fn law_hash_covers_canonical_fields(a: VcpReceiptView, b: VcpReceiptView)
    requires
        a.receipt_id == b.receipt_id,
        a.session_id == b.session_id,
        a.grant_id == b.grant_id,
        a.device_id == b.device_id,
        a.agent_did == b.agent_did,
        a.started_at == b.started_at,
        a.ended_at == b.ended_at,
        a.outcome == b.outcome,
        a.message_count == b.message_count,
        a.telemetry_hash == b.telemetry_hash,
        a.trajectory_hash == b.trajectory_hash,
    ensures
        canonical_json(a) == canonical_json(b),
{
}

// The canonical JSON read from its end: each tail is one field's value and
// everything after it.

spec fn tail_trajectory(r: VcpReceiptView) -> Seq<char> {
    json_opt_text(r.trajectory_hash) + "}"@
}

spec fn tail_telemetry(r: VcpReceiptView) -> Seq<char> {
    json_opt_text(r.telemetry_hash) + (",\"trajectory_hash\":"@ + tail_trajectory(r))
}

spec fn tail_started(r: VcpReceiptView) -> Seq<char> {
    json_quoted(chrono_rfc3339(r.started_at.secs_spec(), r.started_at.nanos_spec())) + (
    ",\"telemetry_hash\":"@ + tail_telemetry(r))
}

spec fn tail_session(r: VcpReceiptView) -> Seq<char> {
    json_quoted(uuid_text_spec(r.session_id)) + (",\"started_at\":"@ + tail_started(r))
}

spec fn tail_receipt(r: VcpReceiptView) -> Seq<char> {
    json_quoted(uuid_text_spec(r.receipt_id)) + (",\"session_id\":"@ + tail_session(r))
}

spec fn tail_outcome(r: VcpReceiptView) -> Seq<char> {
    json_quoted(r.outcome.name_spec()) + (",\"receipt_id\":"@ + tail_receipt(r))
}

spec fn tail_count(r: VcpReceiptView) -> Seq<char> {
    decimal_text(r.message_count as nat) + (",\"outcome\":"@ + tail_outcome(r))
}

spec fn tail_grant(r: VcpReceiptView) -> Seq<char> {
    json_quoted(uuid_text_spec(r.grant_id)) + (",\"message_count\":"@ + tail_count(r))
}

spec fn tail_ended(r: VcpReceiptView) -> Seq<char> {
    json_quoted(chrono_rfc3339(r.ended_at.secs_spec(), r.ended_at.nanos_spec())) + (
    ",\"grant_id\":"@ + tail_grant(r))
}

spec fn tail_device(r: VcpReceiptView) -> Seq<char> {
    json_quoted(r.device_id) + (",\"ended_at\":"@ + tail_ended(r))
}

spec fn tail_agent(r: VcpReceiptView) -> Seq<char> {
    json_quoted(r.agent_did) + (",\"device_id\":"@ + tail_device(r))
}

proof fn lemma_seq_assoc(x: Seq<char>, y: Seq<char>, z: Seq<char>)
    ensures
        (x + y) + z == x + (y + z),
{
    assert((x + y) + z =~= x + (y + z));
}

proof fn lemma_canonical_tails(r: VcpReceiptView)
    ensures
        canonical_json(r) == "{\"agent_did\":"@ + tail_agent(r),
{
    let p1 = "{\"agent_did\":"@;
    let p2 = p1 + json_quoted(r.agent_did);
    let p3 = p2 + ",\"device_id\":"@;
    let p4 = p3 + json_quoted(r.device_id);
    let p5 = p4 + ",\"ended_at\":"@;
    let p6 = p5 + json_quoted(chrono_rfc3339(r.ended_at.secs_spec(), r.ended_at.nanos_spec()));
    let p7 = p6 + ",\"grant_id\":"@;
    let p8 = p7 + json_quoted(uuid_text_spec(r.grant_id));
    let p9 = p8 + ",\"message_count\":"@;
    let p10 = p9 + decimal_text(r.message_count as nat);
    let p11 = p10 + ",\"outcome\":"@;
    let p12 = p11 + json_quoted(r.outcome.name_spec());
    let p13 = p12 + ",\"receipt_id\":"@;
    let p14 = p13 + json_quoted(uuid_text_spec(r.receipt_id));
    let p15 = p14 + ",\"session_id\":"@;
    let p16 = p15 + json_quoted(uuid_text_spec(r.session_id));
    let p17 = p16 + ",\"started_at\":"@;
    let p18 = p17 + json_quoted(chrono_rfc3339(r.started_at.secs_spec(), r.started_at.nanos_spec()));
    let p19 = p18 + ",\"telemetry_hash\":"@;
    let p20 = p19 + json_opt_text(r.telemetry_hash);
    let p21 = p20 + ",\"trajectory_hash\":"@;
    let p22 = p21 + json_opt_text(r.trajectory_hash);
    assert(canonical_json(r) == p22 + "}"@);
    let t22 = "}"@;
    let t21 = json_opt_text(r.trajectory_hash) + t22;
    lemma_seq_assoc(p21, json_opt_text(r.trajectory_hash), t22);
    assert(t21 == tail_trajectory(r));
    let t20 = ",\"trajectory_hash\":"@ + t21;
    lemma_seq_assoc(p20, ",\"trajectory_hash\":"@, t21);
    let t19 = json_opt_text(r.telemetry_hash) + t20;
    lemma_seq_assoc(p19, json_opt_text(r.telemetry_hash), t20);
    assert(t19 == tail_telemetry(r));
    let t18 = ",\"telemetry_hash\":"@ + t19;
    lemma_seq_assoc(p18, ",\"telemetry_hash\":"@, t19);
    let t17 = json_quoted(chrono_rfc3339(r.started_at.secs_spec(), r.started_at.nanos_spec())) + t18;
    lemma_seq_assoc(p17, json_quoted(chrono_rfc3339(r.started_at.secs_spec(), r.started_at.nanos_spec())), t18);
    assert(t17 == tail_started(r));
    let t16 = ",\"started_at\":"@ + t17;
    lemma_seq_assoc(p16, ",\"started_at\":"@, t17);
    let t15 = json_quoted(uuid_text_spec(r.session_id)) + t16;
    lemma_seq_assoc(p15, json_quoted(uuid_text_spec(r.session_id)), t16);
    assert(t15 == tail_session(r));
    let t14 = ",\"session_id\":"@ + t15;
    lemma_seq_assoc(p14, ",\"session_id\":"@, t15);
    let t13 = json_quoted(uuid_text_spec(r.receipt_id)) + t14;
    lemma_seq_assoc(p13, json_quoted(uuid_text_spec(r.receipt_id)), t14);
    assert(t13 == tail_receipt(r));
    let t12 = ",\"receipt_id\":"@ + t13;
    lemma_seq_assoc(p12, ",\"receipt_id\":"@, t13);
    let t11 = json_quoted(r.outcome.name_spec()) + t12;
    lemma_seq_assoc(p11, json_quoted(r.outcome.name_spec()), t12);
    assert(t11 == tail_outcome(r));
    let t10 = ",\"outcome\":"@ + t11;
    lemma_seq_assoc(p10, ",\"outcome\":"@, t11);
    let t9 = decimal_text(r.message_count as nat) + t10;
    lemma_seq_assoc(p9, decimal_text(r.message_count as nat), t10);
    assert(t9 == tail_count(r));
    let t8 = ",\"message_count\":"@ + t9;
    lemma_seq_assoc(p8, ",\"message_count\":"@, t9);
    let t7 = json_quoted(uuid_text_spec(r.grant_id)) + t8;
    lemma_seq_assoc(p7, json_quoted(uuid_text_spec(r.grant_id)), t8);
    assert(t7 == tail_grant(r));
    let t6 = ",\"grant_id\":"@ + t7;
    lemma_seq_assoc(p6, ",\"grant_id\":"@, t7);
    let t5 = json_quoted(chrono_rfc3339(r.ended_at.secs_spec(), r.ended_at.nanos_spec())) + t6;
    lemma_seq_assoc(p5, json_quoted(chrono_rfc3339(r.ended_at.secs_spec(), r.ended_at.nanos_spec())), t6);
    assert(t5 == tail_ended(r));
    let t4 = ",\"ended_at\":"@ + t5;
    lemma_seq_assoc(p4, ",\"ended_at\":"@, t5);
    let t3 = json_quoted(r.device_id) + t4;
    lemma_seq_assoc(p3, json_quoted(r.device_id), t4);
    assert(t3 == tail_device(r));
    let t2 = ",\"device_id\":"@ + t3;
    lemma_seq_assoc(p2, ",\"device_id\":"@, t3);
    let t1 = json_quoted(r.agent_did) + t2;
    lemma_seq_assoc(p1, json_quoted(r.agent_did), t2);
    assert(t1 == tail_agent(r));
}

/// Each canonical field stands in the canonical JSON right after its own key:
/// the receipt's agent after `"agent_did":`, its device after `"device_id":`,
/// and so on for the end and start times, grant, receipt and session ids,
/// message count, outcome and the two optional hashes (`null` when absent).
pub proof fn law_canonical_json_fields(r: VcpReceiptView)
    ensures
        exists|pre: Seq<char>, post: Seq<char>|
            canonical_json(r) == #[trigger] (pre + ("{\"agent_did\":"@ + (json_quoted(r.agent_did) + post))),
        exists|pre: Seq<char>, post: Seq<char>|
            canonical_json(r) == #[trigger] (pre + (",\"device_id\":"@ + (json_quoted(r.device_id) + post))),
        exists|pre: Seq<char>, post: Seq<char>|
            canonical_json(r) == #[trigger] (pre + (",\"ended_at\":"@ + (json_quoted(chrono_rfc3339(r.ended_at.secs_spec(), r.ended_at.nanos_spec())) + post))),
        exists|pre: Seq<char>, post: Seq<char>|
            canonical_json(r) == #[trigger] (pre + (",\"grant_id\":"@ + (json_quoted(uuid_text_spec(r.grant_id)) + post))),
        exists|pre: Seq<char>, post: Seq<char>|
            canonical_json(r) == #[trigger] (pre + (",\"message_count\":"@ + (decimal_text(r.message_count as nat) + post))),
        exists|pre: Seq<char>, post: Seq<char>|
            canonical_json(r) == #[trigger] (pre + (",\"outcome\":"@ + (json_quoted(r.outcome.name_spec()) + post))),
        exists|pre: Seq<char>, post: Seq<char>|
            canonical_json(r) == #[trigger] (pre + (",\"receipt_id\":"@ + (json_quoted(uuid_text_spec(r.receipt_id)) + post))),
        exists|pre: Seq<char>, post: Seq<char>|
            canonical_json(r) == #[trigger] (pre + (",\"session_id\":"@ + (json_quoted(uuid_text_spec(r.session_id)) + post))),
        exists|pre: Seq<char>, post: Seq<char>|
            canonical_json(r) == #[trigger] (pre + (",\"started_at\":"@ + (json_quoted(chrono_rfc3339(r.started_at.secs_spec(), r.started_at.nanos_spec())) + post))),
        exists|pre: Seq<char>, post: Seq<char>|
            canonical_json(r) == #[trigger] (pre + (",\"telemetry_hash\":"@ + (json_opt_text(r.telemetry_hash) + post))),
        exists|pre: Seq<char>, post: Seq<char>|
            canonical_json(r) == #[trigger] (pre + (",\"trajectory_hash\":"@ + (json_opt_text(r.trajectory_hash) + post))),
{
    let p0 = Seq::<char>::empty();
    let p1 = "{\"agent_did\":"@;
    let p2 = p1 + json_quoted(r.agent_did);
    let p3 = p2 + ",\"device_id\":"@;
    let p4 = p3 + json_quoted(r.device_id);
    let p5 = p4 + ",\"ended_at\":"@;
    let p6 = p5 + json_quoted(chrono_rfc3339(r.ended_at.secs_spec(), r.ended_at.nanos_spec()));
    let p7 = p6 + ",\"grant_id\":"@;
    let p8 = p7 + json_quoted(uuid_text_spec(r.grant_id));
    let p9 = p8 + ",\"message_count\":"@;
    let p10 = p9 + decimal_text(r.message_count as nat);
    let p11 = p10 + ",\"outcome\":"@;
    let p12 = p11 + json_quoted(r.outcome.name_spec());
    let p13 = p12 + ",\"receipt_id\":"@;
    let p14 = p13 + json_quoted(uuid_text_spec(r.receipt_id));
    let p15 = p14 + ",\"session_id\":"@;
    let p16 = p15 + json_quoted(uuid_text_spec(r.session_id));
    let p17 = p16 + ",\"started_at\":"@;
    let p18 = p17 + json_quoted(chrono_rfc3339(r.started_at.secs_spec(), r.started_at.nanos_spec()));
    let p19 = p18 + ",\"telemetry_hash\":"@;
    let p20 = p19 + json_opt_text(r.telemetry_hash);
    let p21 = p20 + ",\"trajectory_hash\":"@;
    let p22 = p21 + json_opt_text(r.trajectory_hash);
    assert(canonical_json(r) == p22 + "}"@);
    let t22 = "}"@;
    let t21 = json_opt_text(r.trajectory_hash) + t22;
    lemma_seq_assoc(p21, json_opt_text(r.trajectory_hash), t22);
    let t20 = ",\"trajectory_hash\":"@ + t21;
    lemma_seq_assoc(p20, ",\"trajectory_hash\":"@, t21);
    let t19 = json_opt_text(r.telemetry_hash) + t20;
    lemma_seq_assoc(p19, json_opt_text(r.telemetry_hash), t20);
    let t18 = ",\"telemetry_hash\":"@ + t19;
    lemma_seq_assoc(p18, ",\"telemetry_hash\":"@, t19);
    let t17 = json_quoted(chrono_rfc3339(r.started_at.secs_spec(), r.started_at.nanos_spec())) + t18;
    lemma_seq_assoc(p17, json_quoted(chrono_rfc3339(r.started_at.secs_spec(), r.started_at.nanos_spec())), t18);
    let t16 = ",\"started_at\":"@ + t17;
    lemma_seq_assoc(p16, ",\"started_at\":"@, t17);
    let t15 = json_quoted(uuid_text_spec(r.session_id)) + t16;
    lemma_seq_assoc(p15, json_quoted(uuid_text_spec(r.session_id)), t16);
    let t14 = ",\"session_id\":"@ + t15;
    lemma_seq_assoc(p14, ",\"session_id\":"@, t15);
    let t13 = json_quoted(uuid_text_spec(r.receipt_id)) + t14;
    lemma_seq_assoc(p13, json_quoted(uuid_text_spec(r.receipt_id)), t14);
    let t12 = ",\"receipt_id\":"@ + t13;
    lemma_seq_assoc(p12, ",\"receipt_id\":"@, t13);
    let t11 = json_quoted(r.outcome.name_spec()) + t12;
    lemma_seq_assoc(p11, json_quoted(r.outcome.name_spec()), t12);
    let t10 = ",\"outcome\":"@ + t11;
    lemma_seq_assoc(p10, ",\"outcome\":"@, t11);
    let t9 = decimal_text(r.message_count as nat) + t10;
    lemma_seq_assoc(p9, decimal_text(r.message_count as nat), t10);
    let t8 = ",\"message_count\":"@ + t9;
    lemma_seq_assoc(p8, ",\"message_count\":"@, t9);
    let t7 = json_quoted(uuid_text_spec(r.grant_id)) + t8;
    lemma_seq_assoc(p7, json_quoted(uuid_text_spec(r.grant_id)), t8);
    let t6 = ",\"grant_id\":"@ + t7;
    lemma_seq_assoc(p6, ",\"grant_id\":"@, t7);
    let t5 = json_quoted(chrono_rfc3339(r.ended_at.secs_spec(), r.ended_at.nanos_spec())) + t6;
    lemma_seq_assoc(p5, json_quoted(chrono_rfc3339(r.ended_at.secs_spec(), r.ended_at.nanos_spec())), t6);
    let t4 = ",\"ended_at\":"@ + t5;
    lemma_seq_assoc(p4, ",\"ended_at\":"@, t5);
    let t3 = json_quoted(r.device_id) + t4;
    lemma_seq_assoc(p3, json_quoted(r.device_id), t4);
    let t2 = ",\"device_id\":"@ + t3;
    lemma_seq_assoc(p2, ",\"device_id\":"@, t3);
    let t1 = json_quoted(r.agent_did) + t2;
    lemma_seq_assoc(p1, json_quoted(r.agent_did), t2);
    let t0 = "{\"agent_did\":"@ + t1;
    assert(p0 + t0 =~= t0);
    assert(p1 =~= p0 + "{\"agent_did\":"@);
    lemma_seq_assoc(p0, "{\"agent_did\":"@, t1);
    assert(canonical_json(r) == p0 + ("{\"agent_did\":"@ + (json_quoted(r.agent_did) + t2)));
    assert(canonical_json(r) == p2 + (",\"device_id\":"@ + (json_quoted(r.device_id) + t4)));
    assert(canonical_json(r) == p4 + (",\"ended_at\":"@ + (json_quoted(chrono_rfc3339(r.ended_at.secs_spec(), r.ended_at.nanos_spec())) + t6)));
    assert(canonical_json(r) == p6 + (",\"grant_id\":"@ + (json_quoted(uuid_text_spec(r.grant_id)) + t8)));
    assert(canonical_json(r) == p8 + (",\"message_count\":"@ + (decimal_text(r.message_count as nat) + t10)));
    assert(canonical_json(r) == p10 + (",\"outcome\":"@ + (json_quoted(r.outcome.name_spec()) + t12)));
    assert(canonical_json(r) == p12 + (",\"receipt_id\":"@ + (json_quoted(uuid_text_spec(r.receipt_id)) + t14)));
    assert(canonical_json(r) == p14 + (",\"session_id\":"@ + (json_quoted(uuid_text_spec(r.session_id)) + t16)));
    assert(canonical_json(r) == p16 + (",\"started_at\":"@ + (json_quoted(chrono_rfc3339(r.started_at.secs_spec(), r.started_at.nanos_spec())) + t18)));
    assert(canonical_json(r) == p18 + (",\"telemetry_hash\":"@ + (json_opt_text(r.telemetry_hash) + t20)));
    assert(canonical_json(r) == p20 + (",\"trajectory_hash\":"@ + (json_opt_text(r.trajectory_hash) + t22)));
}

/// Different outcomes have different names.
proof fn lemma_outcome_names(a: SessionOutcome, b: SessionOutcome)
    requires
        a.name_spec() == b.name_spec(),
    ensures
        a == b,
{
    reveal_strlit("Success");
    reveal_strlit("AgentTerminated");
    reveal_strlit("OwnerRevoked");
    reveal_strlit("SafetyViolation");
    reveal_strlit("ConnectivityLoss");
    reveal_strlit("DeviceFault");
    let na = a.name_spec();
    let nb = b.name_spec();
    assert(na.len() == nb.len());
    match a {
        SessionOutcome::Success => assert(na.len() == 7),
        SessionOutcome::AgentTerminated => assert(na.len() == 15 && na[0] == 'A'),
        SessionOutcome::OwnerRevoked => assert(na.len() == 12),
        SessionOutcome::SafetyViolation => assert(na.len() == 15 && na[0] == 'S'),
        SessionOutcome::ConnectivityLoss => assert(na.len() == 16),
        SessionOutcome::DeviceFault => assert(na.len() == 11),
    }
    match b {
        SessionOutcome::Success => assert(nb.len() == 7),
        SessionOutcome::AgentTerminated => assert(nb.len() == 15 && nb[0] == 'A'),
        SessionOutcome::OwnerRevoked => assert(nb.len() == 12),
        SessionOutcome::SafetyViolation => assert(nb.len() == 15 && nb[0] == 'S'),
        SessionOutcome::ConnectivityLoss => assert(nb.len() == 16),
        SessionOutcome::DeviceFault => assert(nb.len() == 11),
    }
    assert(na[0] == nb[0]);
}

/// The canonical JSON gives back every canonical field: two receipts with the
/// same canonical JSON agree on the receipt, session and grant ids, the
/// agent, the device, the outcome, the message count and both optional
/// hashes, and on the RFC 3339 texts of their start and end times — so
/// receipts that differ in any of these commit to different JSON.
pub proof fn law_canonical_json_determines_fields(a: VcpReceiptView, b: VcpReceiptView)
    requires
        canonical_json(a) == canonical_json(b),
    ensures
        a.agent_did == b.agent_did,
        a.device_id == b.device_id,
        chrono_rfc3339(a.ended_at.secs_spec(), a.ended_at.nanos_spec()) == chrono_rfc3339(
            b.ended_at.secs_spec(),
            b.ended_at.nanos_spec(),
        ),
        a.grant_id == b.grant_id,
        a.message_count == b.message_count,
        a.outcome == b.outcome,
        a.receipt_id == b.receipt_id,
        a.session_id == b.session_id,
        chrono_rfc3339(a.started_at.secs_spec(), a.started_at.nanos_spec()) == chrono_rfc3339(
            b.started_at.secs_spec(),
            b.started_at.nanos_spec(),
        ),
        a.telemetry_hash == b.telemetry_hash,
        a.trajectory_hash == b.trajectory_hash,
{
    reveal_strlit(",\"outcome\":");
    lemma_canonical_tails(a);
    lemma_canonical_tails(b);
    lemma_strip("{\"agent_did\":"@, tail_agent(a), tail_agent(b));
    lemma_quoted_prefix(a.agent_did, ",\"device_id\":"@ + tail_device(a), b.agent_did, ",\"device_id\":"@ + tail_device(b));
    lemma_strip(",\"device_id\":"@, tail_device(a), tail_device(b));
    lemma_quoted_prefix(a.device_id, ",\"ended_at\":"@ + tail_ended(a), b.device_id, ",\"ended_at\":"@ + tail_ended(b));
    lemma_strip(",\"ended_at\":"@, tail_ended(a), tail_ended(b));
    lemma_quoted_prefix(
        chrono_rfc3339(a.ended_at.secs_spec(), a.ended_at.nanos_spec()),
        ",\"grant_id\":"@ + tail_grant(a),
        chrono_rfc3339(b.ended_at.secs_spec(), b.ended_at.nanos_spec()),
        ",\"grant_id\":"@ + tail_grant(b),
    );
    lemma_strip(",\"grant_id\":"@, tail_grant(a), tail_grant(b));
    lemma_quoted_prefix(
        uuid_text_spec(a.grant_id),
        ",\"message_count\":"@ + tail_count(a),
        uuid_text_spec(b.grant_id),
        ",\"message_count\":"@ + tail_count(b),
    );
    lemma_strip(",\"message_count\":"@, tail_count(a), tail_count(b));
    let xa = ",\"outcome\":"@ + tail_outcome(a);
    let xb = ",\"outcome\":"@ + tail_outcome(b);
    assert(xa[0] == ',');
    assert(xb[0] == ',');
    lemma_decimal_prefix(a.message_count as nat, xa, b.message_count as nat, xb);
    lemma_strip(",\"outcome\":"@, tail_outcome(a), tail_outcome(b));
    lemma_quoted_prefix(
        a.outcome.name_spec(),
        ",\"receipt_id\":"@ + tail_receipt(a),
        b.outcome.name_spec(),
        ",\"receipt_id\":"@ + tail_receipt(b),
    );
    lemma_outcome_names(a.outcome, b.outcome);
    lemma_strip(",\"receipt_id\":"@, tail_receipt(a), tail_receipt(b));
    lemma_quoted_prefix(
        uuid_text_spec(a.receipt_id),
        ",\"session_id\":"@ + tail_session(a),
        uuid_text_spec(b.receipt_id),
        ",\"session_id\":"@ + tail_session(b),
    );
    lemma_strip(",\"session_id\":"@, tail_session(a), tail_session(b));
    lemma_quoted_prefix(
        uuid_text_spec(a.session_id),
        ",\"started_at\":"@ + tail_started(a),
        uuid_text_spec(b.session_id),
        ",\"started_at\":"@ + tail_started(b),
    );
    lemma_strip(",\"started_at\":"@, tail_started(a), tail_started(b));
    lemma_quoted_prefix(
        chrono_rfc3339(a.started_at.secs_spec(), a.started_at.nanos_spec()),
        ",\"telemetry_hash\":"@ + tail_telemetry(a),
        chrono_rfc3339(b.started_at.secs_spec(), b.started_at.nanos_spec()),
        ",\"telemetry_hash\":"@ + tail_telemetry(b),
    );
    lemma_strip(",\"telemetry_hash\":"@, tail_telemetry(a), tail_telemetry(b));
    lemma_opt_text_prefix(
        a.telemetry_hash,
        ",\"trajectory_hash\":"@ + tail_trajectory(a),
        b.telemetry_hash,
        ",\"trajectory_hash\":"@ + tail_trajectory(b),
    );
    lemma_strip(",\"trajectory_hash\":"@, tail_trajectory(a), tail_trajectory(b));
    lemma_opt_text_prefix(a.trajectory_hash, "}"@, b.trajectory_hash, "}"@);
    lemma_uuid_text_injective(a.grant_id, b.grant_id);
    lemma_uuid_text_injective(a.receipt_id, b.receipt_id);
    lemma_uuid_text_injective(a.session_id, b.session_id);
}

impl VcpReceipt {
    /// The canonical JSON that the receipt's hash commits to.
    pub fn canonical_json(&self) -> (r: String)
        ensures
            r@ == canonical_json(self@),
    {
        let agent = json_string(self.agent_did.as_str());
        let device = json_string(self.device_id.as_str());
        let ended = rfc3339_text(self.ended_at);
        let ended = json_string(ended.as_str());
        let grant = uuid_text(self.grant_id);
        let grant = json_string(grant.as_str());
        let count = decimal_u64(self.message_count);
        let outcome = json_string(self.outcome.name());
        let receipt = uuid_text(self.receipt_id);
        let receipt = json_string(receipt.as_str());
        let session = uuid_text(self.session_id);
        let session = json_string(session.as_str());
        let started = rfc3339_text(self.started_at);
        let started = json_string(started.as_str());
        let telemetry = json_opt_string(&self.telemetry_hash);
        let trajectory = json_opt_string(&self.trajectory_hash);
        String::from_str("{\"agent_did\":").concat(agent.as_str()).concat(",\"device_id\":").concat(
            device.as_str(),
        ).concat(",\"ended_at\":").concat(ended.as_str()).concat(",\"grant_id\":").concat(
            grant.as_str(),
        ).concat(",\"message_count\":").concat(count.as_str()).concat(",\"outcome\":").concat(
            outcome.as_str(),
        ).concat(",\"receipt_id\":").concat(receipt.as_str()).concat(",\"session_id\":").concat(
            session.as_str(),
        ).concat(",\"started_at\":").concat(started.as_str()).concat(",\"telemetry_hash\":").concat(
            telemetry.as_str(),
        ).concat(",\"trajectory_hash\":").concat(trajectory.as_str()).concat("}")
    }

    /// SHA-256 commitment over the receipt's canonical fields, as lowercase hex.
    pub fn hash(&self) -> (r: String)
        ensures
            r@ == hex_text(sha256(vstd::utf8::encode_utf8(canonical_json(self@)))),
            r@.len() == 64,
    {
        let canonical = self.canonical_json();
        let digest = sha256_digest(canonical.as_str().as_bytes());
        hex_encode(digest.as_slice())
    }
}

} // verus!
