//! How a watchdog settles on its agent identifier.
use vstd::prelude::*;
use crate::text::{trim, trimmed_from, white_space};

verus! {

/// The identifier that uuid's `Uuid::parse_str` reads from `s`, as a
/// 128-bit value, or `None` when `s` is not a UUID in one of the accepted
/// textual forms.
pub uninterp spec fn uuid_from_text(s: Seq<char>) -> Option<u128>;

/// uuid: `Uuid::parse_str`, then `Uuid::as_u128`; a parse error becomes
/// `None`.
#[verifier::external_body]
fn parse_uuid(s: &str) -> (id: Option<u128>)
    ensures
        id == uuid_from_text(s@),
{
    match uuid::Uuid::parse_str(s) {
        Ok(u) => Some(u.as_u128()),
        Err(_) => None,
    }
}

/// A random (version 4, RFC 4122 variant) UUID: version nibble `4` in bits
/// 76..80 and variant bits `10` in bits 62..64.
pub open spec fn is_random_uuid(id: u128) -> bool {
    &&& (id as int / 0x1_0000_0000_0000_0000_000int) % 16 == 4
    &&& (id as int / 0x4000_0000_0000_0000int) % 4 == 2
}

/// uuid: `Uuid::new_v4`, then `Uuid::as_u128`. The bits are random except
/// for the version and variant fields, which `new_v4` sets. `new_v4` panics
/// when the operating system's random source fails; that is a failure of
/// the environment, which no precondition can rule out.
#[verifier::external_body]
fn fresh_uuid() -> (id: u128)
    ensures
        is_random_uuid(id),
{
    uuid::Uuid::new_v4().as_u128()
}

/// The lower-case hexadecimal digit for `0 <= n < 16`.
pub open spec fn hex_digit(n: int) -> char {
    if n < 10 {
        (('0' as int) + n) as char
    } else {
        (('a' as int) + n - 10) as char
    }
}

/// The `k`-th hexadecimal digit of `id`, counting from the most
/// significant of its 32 digits.
pub open spec fn nibble(id: u128, k: int) -> int {
    (id as int / vstd::arithmetic::power::pow(16, (31 - k) as nat)) % 16
}

/// Hexadecimal digits `from..to` of `id`.
pub open spec fn hex_run(id: u128, from: int, to: int) -> Seq<char> {
    Seq::new((to - from) as nat, |i: int| hex_digit(nibble(id, from + i)))
}

/// The hyphenated form of a UUID: its 32 lower-case hexadecimal digits in
/// groups of 8, 4, 4, 4 and 12, joined by `-`.
pub open spec fn hyphenated_uuid(id: u128) -> Seq<char> {
    hex_run(id, 0, 8) + seq!['-'] + hex_run(id, 8, 12) + seq!['-'] + hex_run(id, 12, 16) + seq![
        '-',
    ] + hex_run(id, 16, 20) + seq!['-'] + hex_run(id, 20, 32)
}

/// Text holding at least one character and no whitespace.
pub open spec fn solid_text(s: Seq<char>) -> bool {
    &&& s.len() > 0
    &&& forall|k: int| 0 <= k < s.len() ==> !white_space(#[trigger] s[k])
}

/// uuid: `Uuid::from_u128`, then its `Display` form through `to_string`,
/// which is the hyphenated lower-case form. uuid documents that
/// `Uuid::parse_str` accepts every form the crate writes, so the text reads
/// back as `id`; hexadecimal digits and `-` are not whitespace to std.
#[verifier::external_body]
fn uuid_text(id: u128) -> (s: String)
    ensures
        s@ == hyphenated_uuid(id),
        uuid_from_text(s@) == Some(id),
        forall|k: int| 0 <= k < s@.len() ==> !white_space(#[trigger] s@[k]),
{
    uuid::Uuid::from_u128(id).to_string()
}

/// What a start with no configured identifier settles on when the stored
/// text is `s`: the stored text, trimmed, read as a UUID.
pub open spec fn stored_outcome(s: Seq<char>, r: Result<AgentIdentity, AgentIdError>) -> bool {
    exists|t: Seq<char>| trimmed_from(s, t) && r == read_outcome(uuid_from_text(t), AgentIdError::InvalidStored)
}

/// The text form in which an agent identifier is stored and published. A
/// later start that finds exactly this text stored settles on the same
/// identifier, as one read from storage.
pub fn agent_id_text(id: u128) -> (s: String)
    ensures
        s@ == hyphenated_uuid(id),
        uuid_from_text(s@) == Some(id),
        solid_text(s@),
        stored_outcome(s@, Ok(AgentIdentity { id, generated: false })),
        forall|r: Result<AgentIdentity, AgentIdError>|
            stored_outcome(s@, r) ==> r == Ok::<AgentIdentity, AgentIdError>(
                AgentIdentity { id, generated: false },
            ),
{
    let s = uuid_text(id);
    proof {
        assert(s@.len() == 36);
        lemma_solid_text_trims_to_itself(s@);
        assert(stored_outcome(s@, Ok(AgentIdentity { id, generated: false })));
        assert forall|r: Result<AgentIdentity, AgentIdError>| stored_outcome(s@, r) implies r
            == Ok::<AgentIdentity, AgentIdError>(AgentIdentity { id, generated: false }) by {
            let t = choose|t: Seq<char>|
                trimmed_from(s@, t) && r == read_outcome(
                    uuid_from_text(t),
                    AgentIdError::InvalidStored,
                );
            lemma_trimmed_unique(s@, t, s@);
        }
    }
    s
}

/// Text that neither starts nor ends with whitespace is its own trimmed form.
pub proof fn lemma_solid_text_trims_to_itself(s: Seq<char>)
    requires
        solid_text(s),
    ensures
        trimmed_from(s, s),
{
    assert(s.subrange(0, s.len() as int) =~= s);
    assert(!white_space(s[0]));
    assert(!white_space(s[s.len() - 1]));
}

/// Why no agent identifier could be settled.
#[derive(Debug, Clone, Copy, PartialEq, Eq, Structural)]
pub enum AgentIdError {
    /// The explicitly configured identifier is not a UUID.
    InvalidConfigured,
    /// The identifier stored by an earlier run is not a UUID.
    InvalidStored,
}

/// The identifier a watchdog uses, and whether it was newly generated (and
/// must therefore be stored for later runs).
#[derive(Debug, Clone, Copy, PartialEq, Eq, Structural)]
pub struct AgentIdentity {
    pub id: u128,
    pub generated: bool,
}

/// The outcome of reading an identifier from configuration or storage.
pub open spec fn read_outcome(parsed: Option<u128>, err: AgentIdError) -> Result<
    AgentIdentity,
    AgentIdError,
> {
    match parsed {
        Some(id) => Ok(AgentIdentity { id, generated: false }),
        None => Err(err),
    }
}

/// Text as its characters.
pub open spec fn text_of(s: Option<&str>) -> Option<Seq<char>> {
    match s {
        Some(s) => Some(s@),
        None => None,
    }
}

/// What a start settles on, given the configured identifier text and the
/// text stored by an earlier run: the configured one wins; else the stored
/// one, trimmed; else a fresh random identifier, marked as generated.
pub open spec fn start_outcome(
    configured: Option<Seq<char>>,
    stored: Option<Seq<char>>,
    r: Result<AgentIdentity, AgentIdError>,
) -> bool {
    match configured {
        Some(c) => r == read_outcome(uuid_from_text(c), AgentIdError::InvalidConfigured),
        None => match stored {
            Some(s) => stored_outcome(s, r),
            None => r matches Ok(x) && x.generated && is_random_uuid(x.id),
        },
    }
}

/// Settles the agent identifier: an explicitly configured one wins; else
/// the one stored by an earlier run (surrounding whitespace ignored); else a
/// fresh random one.
pub fn resolve_agent_id(configured: Option<&str>, stored: Option<&str>) -> (r: Result<
    AgentIdentity,
    AgentIdError,
>)
    ensures
        start_outcome(text_of(configured), text_of(stored), r),
{
    match configured {
        Some(c) => match parse_uuid(c) {
            Some(id) => Ok(AgentIdentity { id, generated: false }),
            None => Err(AgentIdError::InvalidConfigured),
        },
        None => match stored {
            Some(s) => {
                let t = trim(s);
                match parse_uuid(t) {
                    Some(id) => Ok(AgentIdentity { id, generated: false }),
                    None => Err(AgentIdError::InvalidStored),
                }
            },
            None => Ok(AgentIdentity { id: fresh_uuid(), generated: true }),
        },
    }
}

/// What a start settles on, and the text it leaves in storage for later
/// starts (only when it generated the identifier).
#[derive(Debug)]
pub struct Settlement {
    pub identity: AgentIdentity,
    pub to_store: Option<String>,
}

/// The stored text a later start finds: what this start writes, or else
/// what was already there.
pub open spec fn stored_after(stored: Option<Seq<char>>, to_store: Option<String>) -> Option<
    Seq<char>,
> {
    match to_store {
        Some(t) => Some(t@),
        None => stored,
    }
}

/// Settles the agent identifier at start and says what to store. A start
/// stores text only for an identifier it generated; the next start, under
/// the same configuration and finding what this one left stored, settles
/// on the same identifier, or fails the same way when this one failed.
pub fn settle_agent_id(configured: Option<&str>, stored: Option<&str>) -> (r: Result<
    Settlement,
    AgentIdError,
>)
    ensures
        match r {
            Ok(x) => {
                &&& start_outcome(text_of(configured), text_of(stored), Ok(x.identity))
                &&& (x.to_store is Some <==> x.identity.generated)
                &&& x.to_store matches Some(t) ==> t@ == hyphenated_uuid(x.identity.id)
                &&& forall|next: Result<AgentIdentity, AgentIdError>|
                    start_outcome(text_of(configured), stored_after(text_of(stored), x.to_store), next)
                        ==> next == Ok::<AgentIdentity, AgentIdError>(
                        AgentIdentity { id: x.identity.id, generated: false },
                    )
            },
            Err(e) => {
                &&& start_outcome(text_of(configured), text_of(stored), Err(e))
                &&& forall|next: Result<AgentIdentity, AgentIdError>|
                    start_outcome(text_of(configured), text_of(stored), next) ==> next == Err::<
                        AgentIdentity,
                        AgentIdError,
                    >(e)
            },
        },
{
    let r = resolve_agent_id(configured, stored);
    proof {
        assert forall|a: Result<AgentIdentity, AgentIdError>, b: Result<AgentIdentity, AgentIdError>|
            start_outcome(text_of(configured), text_of(stored), a) && start_outcome(
                text_of(configured),
                text_of(stored),
                b,
            ) && !(a matches Ok(x) && x.generated) implies a == b by {
            if configured is None {
                if let Some(s) = text_of(stored) {
                    lemma_stored_outcome_deterministic(s, a, b);
                }
            }
        }
    }
    match r {
        Ok(identity) => {
            if identity.generated {
                let text = agent_id_text(identity.id);
                Ok(Settlement { identity, to_store: Some(text) })
            } else {
                Ok(Settlement { identity, to_store: None })
            }
        },
        Err(e) => Err(e),
    }
}

/// Surrounding whitespace in the stored text is ignored: it settles as its
/// trimmed form read as a UUID.
pub proof fn lemma_stored_whitespace_ignored(
    s: Seq<char>,
    t: Seq<char>,
    r: Result<AgentIdentity, AgentIdError>,
)
    requires
        trimmed_from(s, t),
    ensures
        stored_outcome(s, r) <==> r == read_outcome(uuid_from_text(t), AgentIdError::InvalidStored),
{
    if stored_outcome(s, r) {
        let t2 = choose|t2: Seq<char>|
            trimmed_from(s, t2) && r == read_outcome(uuid_from_text(t2), AgentIdError::InvalidStored);
        lemma_trimmed_unique(s, t, t2);
    }
}

/// A configured identifier takes precedence: what is stored does not
/// matter, and a start never generates one.
pub proof fn lemma_configured_identifier_wins(
    c: Seq<char>,
    stored1: Option<Seq<char>>,
    stored2: Option<Seq<char>>,
    r: Result<AgentIdentity, AgentIdError>,
)
    ensures
        start_outcome(Some(c), stored1, r) <==> start_outcome(Some(c), stored2, r),
        start_outcome(Some(c), stored1, r) ==> !(r matches Ok(x) && x.generated),
{
}

/// Reading the same stored text always settles the same way.
pub proof fn lemma_stored_outcome_deterministic(
    s: Seq<char>,
    a: Result<AgentIdentity, AgentIdError>,
    b: Result<AgentIdentity, AgentIdError>,
)
    requires
        stored_outcome(s, a),
        stored_outcome(s, b),
    ensures
        a == b,
{
    let ta = choose|t: Seq<char>|
        trimmed_from(s, t) && a == read_outcome(uuid_from_text(t), AgentIdError::InvalidStored);
    let tb = choose|t: Seq<char>|
        trimmed_from(s, t) && b == read_outcome(uuid_from_text(t), AgentIdError::InvalidStored);
    lemma_trimmed_unique(s, ta, tb);
}

/// Trimming is a function: a text has only one trimmed form.
pub proof fn lemma_trimmed_unique(s: Seq<char>, t1: Seq<char>, t2: Seq<char>)
    requires
        trimmed_from(s, t1),
        trimmed_from(s, t2),
    ensures
        t1 == t2,
{
    let (i1, j1) = choose|i: int, j: int|
        #![trigger s.subrange(i, j)]
        0 <= i <= j <= s.len() && t1 == s.subrange(i, j) && (forall|k: int|
            0 <= k < i ==> white_space(#[trigger] s[k])) && (forall|k: int|
            j <= k < s.len() ==> white_space(#[trigger] s[k])) && (t1.len() > 0 ==> !white_space(
            t1[0],
        ) && !white_space(t1[t1.len() - 1]));
    let (i2, j2) = choose|i: int, j: int|
        #![trigger s.subrange(i, j)]
        0 <= i <= j <= s.len() && t2 == s.subrange(i, j) && (forall|k: int|
            0 <= k < i ==> white_space(#[trigger] s[k])) && (forall|k: int|
            j <= k < s.len() ==> white_space(#[trigger] s[k])) && (t2.len() > 0 ==> !white_space(
            t2[0],
        ) && !white_space(t2[t2.len() - 1]));
    if t1.len() == 0 && t2.len() == 0 {
        assert(t1 =~= t2);
    } else if t1.len() == 0 {
        // t2 starts with a non-whitespace character that t1's bounds call whitespace
        assert(t2[0] == s[i2]);
        assert(i2 < i1 || i2 >= j1);
    } else if t2.len() == 0 {
        assert(t1[0] == s[i1]);
        assert(i1 < i2 || i1 >= j2);
    } else {
        assert(t1[0] == s[i1]);
        assert(t2[0] == s[i2]);
        assert(t1[t1.len() - 1] == s[j1 - 1]);
        assert(t2[t2.len() - 1] == s[j2 - 1]);
        assert(i1 == i2);
        assert(j1 == j2);
        assert(t1 =~= t2);
    }
}

} // verus!
