//! Semantic locks: predicates on protected data, evaluated by the store inside
//! the grant, so that nothing can change between the check and the lock.
//!
//! The protected data of a key is the hash at `{key}:data`.

use vstd::prelude::*;

use crate::command::{Invocation, InvocationV, ProgramV};
use crate::error::{backend, held, invalid, Error, ErrorV};
use crate::leases::{fence_lease, fence_lease_of};
use crate::owner::OwnerId;
use crate::single::{fence_key, fence_key_for, RedisLockHandle, RedisLockManager};
use crate::span::{millis, Span};
use crate::text::{chars_of, same};

verus! {

/// A decimal digit.
pub open spec fn is_digit(c: char) -> bool {
    '0' <= c <= '9'
}

/// One or more decimal digits.
pub open spec fn digits(s: Seq<char>) -> bool {
    s.len() > 0 && forall|i: int| 0 <= i < s.len() ==> is_digit(#[trigger] s[i])
}

/// Digits, with or without a fraction behind a point.
pub open spec fn unsigned_number(s: Seq<char>) -> bool {
    digits(s) || exists|i: int|
        0 <= i < s.len() && #[trigger] s[i] == '.' && digits(s.take(i)) && digits(s.skip(i + 1))
}

/// A number in decimal, with or without a sign.
pub open spec fn decimal_number(s: Seq<char>) -> bool {
    unsigned_number(s) || (s.len() > 0 && s[0] == '-' && unsigned_number(s.skip(1)))
}

/// Where the digits from `from` on end.
fn digits_end(xs: &Vec<char>, from: usize) -> (r: usize)
    requires
        from <= xs@.len(),
    ensures
        from <= r <= xs@.len(),
        forall|i: int| from <= i < r ==> is_digit(#[trigger] xs@[i]),
        r < xs@.len() ==> !is_digit(xs@[r as int]),
{
    let mut i: usize = from;
    while i < xs.len()
        invariant
            from <= i <= xs@.len(),
            forall|j: int| from <= j < i ==> is_digit(#[trigger] xs@[j]),
        decreases xs@.len() - i,
    {
        if !('0' <= xs[i] && xs[i] <= '9') {
            return i;
        }
        i += 1;
    }
    i
}

/// Whether what stands from `from` on is digits, with or without a fraction.
fn is_unsigned_number(xs: &Vec<char>, from: usize) -> (r: bool)
    requires
        from <= xs@.len(),
    ensures
        r == unsigned_number(xs@.skip(from as int)),
{
    let ghost s = xs@.skip(from as int);
    let len: usize = xs.len();
    let end = digits_end(xs, from);
    let ghost n = end - from;
    proof {
        assert forall|i: int| 0 <= i < n implies is_digit(#[trigger] s[i]) by {
            assert(s[i] == xs@[from + i]);
        }
        if n < s.len() {
            assert(s[n] == xs@[end as int]);
            assert(!digits(s));
        }
        assert forall|i: int|
            0 <= i < s.len() && #[trigger] s[i] == '.' && digits(s.take(i)) && digits(
                s.skip(i + 1),
            ) implies i == n by {
            if n < i {
                assert(s.take(i)[n] == s[n]);
            }
        }
    }
    if end == from {
        proof {
            assert(s.take(0).len() == 0);
        }
        return false;
    }
    if end == len {
        return true;
    }
    if xs[end] != '.' {
        return false;
    }
    let last = digits_end(xs, end + 1);
    let ghost rest = s.skip(n + 1);
    proof {
        assert(digits(s.take(n)));
        assert forall|i: int| 0 <= i < rest.len() implies #[trigger] rest[i] == xs@[end + 1 + i] by {}
        if last < len {
            assert(rest[last - end - 1] == xs@[last as int]);
        }
    }
    last == len && last > end + 1
}

/// What a floating-point number prints as: a number in decimal, one of the two
/// infinities, or none at all.
pub open spec fn number_text(s: Seq<char>) -> bool {
    decimal_number(s) || s == "inf"@ || s == "-inf"@ || s == "NaN"@
}

/// How a script writes the number that prints as `s`.
pub open spec fn lua_number(s: Seq<char>) -> Seq<char> {
    if s == "inf"@ {
        "math.huge"@
    } else if s == "-inf"@ {
        "-math.huge"@
    } else if s == "NaN"@ {
        "(0/0)"@
    } else {
        s
    }
}

/// A number, as it prints: such as `-1.5`, `inf` or `NaN`.
#[derive(Debug)]
pub struct Number {
    text: String,
}

impl View for Number {
    type V = Seq<char>;

    closed spec fn view(&self) -> Seq<char> {
        self.text@
    }
}

impl Number {
    #[verifier::type_invariant]
    spec fn inv(self) -> bool {
        number_text(self.text@)
    }

    /// Takes `s` for a number, where it is one.
    pub fn parse(s: &str) -> (r: Option<Self>)
        ensures
            r is Some <==> number_text(s@),
            r matches Some(n) ==> n@ == s@,
    {
        let xs = chars_of(s);
        proof {
            assert(s@.skip(0) =~= s@);
        }
        if is_unsigned_number(&xs, 0) || (xs.len() > 0 && xs[0] == '-' && is_unsigned_number(
            &xs,
            1,
        )) || same(s, "inf") || same(s, "-inf") || same(s, "NaN") {
            Some(Number { text: s.to_owned() })
        } else {
            None
        }
    }

    /// What the number prints as.
    pub fn text(&self) -> (r: &str)
        ensures
            r@ == self@,
            number_text(r@),
    {
        proof {
            use_type_invariant(self);
        }
        self.text.as_str()
    }

    /// How a script writes the number.
    pub fn to_lua(&self) -> (r: String)
        ensures
            r@ == lua_number(self@),
    {
        if same(self.text.as_str(), "inf") {
            "math.huge".to_owned()
        } else if same(self.text.as_str(), "-inf") {
            "-math.huge".to_owned()
        } else if same(self.text.as_str(), "NaN") {
            "(0/0)".to_owned()
        } else {
            self.text.clone()
        }
    }
}

/// A number in decimal holds nothing but digits, a point and a sign, so it says
/// the same wherever it stands in a script.
pub proof fn numbers_are_plain(s: Seq<char>, i: int)
    requires
        decimal_number(s),
        0 <= i < s.len(),
    ensures
        is_digit(s[i]) || s[i] == '.' || (i == 0 && s[i] == '-'),
{
    if unsigned_number(s) {
        lemma_unsigned_plain(s, i);
    } else if i > 0 {
        lemma_unsigned_plain(s.skip(1), i - 1);
        assert(s.skip(1)[i - 1] == s[i]);
    }
}

proof fn lemma_unsigned_plain(s: Seq<char>, i: int)
    requires
        unsigned_number(s),
        0 <= i < s.len(),
    ensures
        is_digit(s[i]) || s[i] == '.',
{
    if !digits(s) {
        let p = choose|p: int|
            0 <= p < s.len() && #[trigger] s[p] == '.' && digits(s.take(p)) && digits(
                s.skip(p + 1),
            );
        if i < p {
            assert(s.take(p)[i] == s[i]);
        } else if i > p {
            assert(s.skip(p + 1)[i - p - 1] == s[i]);
        }
    }
}

/// A predicate on one field of the protected hash.
#[allow(inconsistent_fields)]
#[derive(Debug)]
pub enum Predicate {
    /// The field equals the value.
    Equals { field: String, value: String },
    /// The field is a number greater than the value.
    FieldGt { field: String, value: Number },
    /// The field does not exist.
    Absent { field: String },
}

/// A predicate, its texts as characters.
pub enum PredicateV {
    Equals { field: Seq<char>, value: Seq<char> },
    FieldGt { field: Seq<char>, value: Seq<char> },
    Absent { field: Seq<char> },
}

impl View for Predicate {
    type V = PredicateV;

    open spec fn view(&self) -> PredicateV {
        match self {
            Predicate::Equals { field, value } => PredicateV::Equals {
                field: field@,
                value: value@,
            },
            Predicate::FieldGt { field, value } => PredicateV::FieldGt {
                field: field@,
                value: value@,
            },
            Predicate::Absent { field } => PredicateV::Absent { field: field@ },
        }
    }
}

/// What stands for a character in a string in single quotes.
pub open spec fn escape(c: char) -> Seq<char> {
    if c == '\'' || c == '\\' {
        seq!['\\', c]
    } else if c == '\n' {
        seq!['\\', 'n']
    } else if c == '\r' {
        seq!['\\', 'r']
    } else {
        seq![c]
    }
}

/// What stands for `s` in a string in single quotes.
pub open spec fn escaped(s: Seq<char>) -> Seq<char>
    decreases s.len(),
{
    if s.len() == 0 {
        seq![]
    } else {
        escaped(s.drop_last()) + escape(s.last())
    }
}

/// Writes `s` as a string in single quotes has it: a backslash before each
/// quote and each backslash, and line breaks by their letters.
pub fn esc(s: &str) -> (r: String)
    ensures
        r@ == escaped(s@),
{
    let xs = chars_of(s);
    let mut out = String::new();
    let mut i: usize = 0;
    while i < xs.len()
        invariant
            xs@ == s@,
            0 <= i <= xs@.len(),
            out@ == escaped(s@.take(i as int)),
        decreases xs@.len() - i,
    {
        let c = xs[i];
        let ghost before = out@;
        proof {
            assert(s@.take(i + 1).drop_last() =~= s@.take(i as int));
            assert(s@.take(i + 1).last() == c);
        }
        if c == '\'' || c == '\\' {
            out.push('\\');
            out.push(c);
        } else if c == '\n' {
            out.push('\\');
            out.push('n');
        } else if c == '\r' {
            out.push('\\');
            out.push('r');
        } else {
            out.push(c);
        }
        proof {
            assert(out@ =~= before + escape(c));
        }
        i += 1;
    }
    proof {
        assert(s@.take(s@.len() as int) =~= s@);
    }
    out
}

/// The condition that the store evaluates for a predicate.
pub open spec fn lua(p: PredicateV) -> Seq<char> {
    match p {
        PredicateV::Equals { field, value } => "(redis.call('HGET', KEYS[3], '"@ + escaped(field)
            + "') == '"@ + escaped(value) + "')"@,
        PredicateV::FieldGt { field, value } => "(tonumber(redis.call('HGET', KEYS[3], '"@
            + escaped(field) + "')) ~= nil and tonumber(redis.call('HGET', KEYS[3], '"@ + escaped(
            field,
        ) + "')) > "@ + lua_number(value) + ")"@,
        PredicateV::Absent { field } => "(redis.call('HEXISTS', KEYS[3], '"@ + escaped(field)
            + "') == 0)"@,
    }
}

impl Predicate {
    /// The condition that the store evaluates.
    pub fn to_lua(&self) -> (r: String)
        ensures
            r@ == lua(self@),
    {
        match self {
            Predicate::Equals { field, value } => "(redis.call('HGET', KEYS[3], '".to_owned().concat(
                esc(field.as_str()).as_str(),
            ).concat("') == '").concat(esc(value.as_str()).as_str()).concat("')"),
            Predicate::FieldGt { field, value } => {
                let f = esc(field.as_str());
                "(tonumber(redis.call('HGET', KEYS[3], '".to_owned().concat(f.as_str()).concat(
                    "')) ~= nil and tonumber(redis.call('HGET', KEYS[3], '",
                ).concat(f.as_str()).concat("')) > ").concat(value.to_lua().as_str()).concat(")")
            },
            Predicate::Absent { field } => "(redis.call('HEXISTS', KEYS[3], '".to_owned().concat(
                esc(field.as_str()).as_str(),
            ).concat("') == 0)"),
        }
    }
}

/// The predicates of a guard as characters.
pub open spec fn predicates(ps: Seq<Predicate>) -> Seq<PredicateV> {
    ps.map_values(|p: Predicate| p@)
}

/// The conjunction of the conditions of `ps`.
pub open spec fn conjunction(ps: Seq<PredicateV>) -> Seq<char>
    decreases ps.len(),
{
    if ps.len() == 0 {
        seq![]
    } else if ps.len() == 1 {
        lua(ps[0])
    } else {
        conjunction(ps.drop_last()) + " and "@ + lua(ps.last())
    }
}

/// The script of a semantic grant: denied without protected data, while the
/// key is held, and unless every predicate holds; otherwise the key is taken,
/// a fence allocated, and its counter kept longer than the key.
pub open spec fn semantic_script(ps: Seq<PredicateV>) -> Seq<char> {
    "\nif redis.call('EXISTS', KEYS[3]) == 0 then return {0, 0} end\nif redis.call('EXISTS', KEYS[1]) == 1 then return {0, 0} end\nif not ("@
        + conjunction(ps)
        + ") then return {0, 0} end\nredis.call('SET', KEYS[1], ARGV[1], 'PX', ARGV[2])\nlocal fence = redis.call('INCR', KEYS[2])\nredis.call('PEXPIRE', KEYS[2], ARGV[3])\nreturn {1, fence}\n"@
}

/// The script call of a semantic grant of `key` for `token`.
pub open spec fn semantic_call(
    key: Seq<char>,
    ps: Seq<PredicateV>,
    token: Seq<char>,
    ttl: nat,
) -> InvocationV {
    InvocationV {
        program: ProgramV::Composed(semantic_script(ps)),
        keys: seq![],
        args: seq![],
    }.key(key).key(fence_key(key)).key(data_key(key)).text(token).num(millis(ttl) as u64).num(
        fence_lease(millis(ttl) as u64),
    )
}

/// Where the protected data of `key` is kept.
pub open spec fn data_key(key: Seq<char>) -> Seq<char> {
    key + ":data"@
}

/// A semantic acquisition being put together.
#[derive(Debug)]
pub struct SemanticGuard {
    pub key: String,
    pub preds: Vec<Predicate>,
    pub ttl: Span,
    pub watchdog: bool,
}

impl SemanticGuard {
    /// A guard on `key` without predicates, with a lease of 30 s.
    pub fn new(key: &str) -> (r: Self)
        ensures
            r.key@ == key@,
            r.preds@.len() == 0,
            r.ttl@ == 30_000_000_000,
            !r.watchdog,
    {
        SemanticGuard {
            key: key.to_owned(),
            preds: Vec::new(),
            ttl: Span::from_secs(30),
            watchdog: false,
        }
    }

    /// Adds a predicate. All must hold.
    pub fn where_(self, p: Predicate) -> (r: Self)
        ensures
            r.key == self.key,
            r.preds@ == self.preds@.push(p),
            r.ttl == self.ttl,
            r.watchdog == self.watchdog,
    {
        let mut me = self;
        me.preds.push(p);
        me
    }

    /// The field `f` must equal `v`.
    pub fn field_equals(self, f: &str, v: &str) -> (r: Self)
        ensures
            r.key == self.key,
            predicates(r.preds@) == predicates(self.preds@).push(
                PredicateV::Equals { field: f@, value: v@ },
            ),
            r.ttl == self.ttl,
            r.watchdog == self.watchdog,
    {
        let ghost before = self.preds@;
        let r = self.where_(Predicate::Equals { field: f.to_owned(), value: v.to_owned() });
        proof {
            assert(predicates(r.preds@) =~= predicates(before).push(
                PredicateV::Equals { field: f@, value: v@ },
            ));
        }
        r
    }

    /// The field `f` must be a number greater than `v`.
    pub fn field_gt(self, f: &str, v: Number) -> (r: Self)
        ensures
            r.key == self.key,
            predicates(r.preds@) == predicates(self.preds@).push(
                PredicateV::FieldGt { field: f@, value: v@ },
            ),
            r.ttl == self.ttl,
            r.watchdog == self.watchdog,
    {
        let ghost before = self.preds@;
        let r = self.where_(Predicate::FieldGt { field: f.to_owned(), value: v });
        proof {
            assert(predicates(r.preds@) =~= predicates(before).push(
                PredicateV::FieldGt { field: f@, value: v@ },
            ));
        }
        r
    }

    /// The field `f` must not exist.
    pub fn field_absent(self, f: &str) -> (r: Self)
        ensures
            r.key == self.key,
            predicates(r.preds@) == predicates(self.preds@).push(PredicateV::Absent { field: f@ }),
            r.ttl == self.ttl,
            r.watchdog == self.watchdog,
    {
        let ghost before = self.preds@;
        let r = self.where_(Predicate::Absent { field: f.to_owned() });
        proof {
            assert(predicates(r.preds@) =~= predicates(before).push(
                PredicateV::Absent { field: f@ },
            ));
        }
        r
    }

    /// Sets the lease.
    pub fn ttl(self, d: Span) -> (r: Self)
        ensures
            r == (SemanticGuard { ttl: d, ..self }),
    {
        SemanticGuard { ttl: d, ..self }
    }

    /// Asks for automatic renewal.
    pub fn with_watchdog(self) -> (r: Self)
        ensures
            r == (SemanticGuard { watchdog: true, ..self }),
    {
        SemanticGuard { watchdog: true, ..self }
    }

    /// The conjunction of the conditions.
    fn combined(&self) -> (r: String)
        requires
            self.preds@.len() > 0,
        ensures
            r@ == conjunction(predicates(self.preds@)),
    {
        let ghost ps = predicates(self.preds@);
        let mut out = self.preds[0].to_lua();
        let mut i: usize = 1;
        proof {
            assert(ps.take(1)[0] == ps[0]);
        }
        while i < self.preds.len()
            invariant
                1 <= i <= self.preds@.len(),
                ps == predicates(self.preds@),
                out@ == conjunction(ps.take(i as int)),
            decreases self.preds@.len() - i,
        {
            proof {
                assert(ps.take(i + 1).drop_last() =~= ps.take(i as int));
                assert(ps.take(i + 1).last() == ps[i as int]);
            }
            out = out.concat(" and ").concat(self.preds[i].to_lua().as_str());
            i += 1;
        }
        proof {
            assert(ps.take(ps.len() as int) =~= ps);
        }
        out
    }

    /// Begins the grant, for a fresh owner. A guard without predicates is
    /// refused.
    pub fn acquire(self) -> (r: Result<PendingSemantic, Error>)
        ensures
            r is Ok <==> self.preds@.len() > 0,
            r matches Ok(p) ==> p.guard == self && p.owner.minted(),
            r matches Err(e) ==> e@ == ErrorV::InvalidConfig("at least one predicate required"@),
    {
        self.acquire_as(OwnerId::generate())
    }

    /// Begins the grant, for `owner`. A guard without predicates is refused.
    pub fn acquire_as(self, owner: OwnerId) -> (r: Result<PendingSemantic, Error>)
        ensures
            r is Ok <==> self.preds@.len() > 0,
            r matches Ok(p) ==> p.guard == self && p.owner == owner,
            r matches Err(e) ==> e@ == ErrorV::InvalidConfig("at least one predicate required"@),
    {
        if self.preds.len() == 0 {
            return Err(invalid("at least one predicate required"));
        }
        Ok(PendingSemantic { guard: self, owner })
    }
}

/// A semantic grant whose script call is still to be answered.
#[derive(Debug)]
pub struct PendingSemantic {
    pub guard: SemanticGuard,
    pub owner: OwnerId,
}

impl PendingSemantic {
    /// The call to send.
    pub fn invocation(&self) -> (r: Invocation)
        requires
            self.guard.preds@.len() > 0,
        ensures
            r@ == semantic_call(
                self.guard.key@,
                predicates(self.guard.preds@),
                self.owner.token_text(),
                self.guard.ttl@,
            ),
    {
        let key = self.guard.key.as_str();
        let ms = self.guard.ttl.as_millis();
        let source =
            "\nif redis.call('EXISTS', KEYS[3]) == 0 then return {0, 0} end\nif redis.call('EXISTS', KEYS[1]) == 1 then return {0, 0} end\nif not (".to_owned().concat(
            self.guard.combined().as_str(),
        ).concat(
            ") then return {0, 0} end\nredis.call('SET', KEYS[1], ARGV[1], 'PX', ARGV[2])\nlocal fence = redis.call('INCR', KEYS[2])\nredis.call('PEXPIRE', KEYS[2], ARGV[3])\nreturn {1, fence}\n",
        );
        Invocation::composed(source).key(key).key(fence_key_for(key).as_str()).key(
            key.to_owned().concat(":data").as_str(),
        ).text(self.owner.token().as_str()).num(ms).num(fence_lease_of(ms))
    }

    /// What the answer means: a status of 1 is a grant under the fence that
    /// came with it; any other is a denial, whichever condition failed.
    pub fn complete(self, manager: &RedisLockManager, reply: Result<(i64, i64), String>) -> (r:
        Result<RedisLockHandle, Error>)
        ensures
            match reply {
                Ok((status, fence)) => if status == 1 {
                    r matches Ok(h) && h.key@ == self.guard.key@ && h.owner == self.owner
                        && h.fence@ == fence as u64 && h.ttl == self.guard.ttl && !h.released
                        && !h.poisoned
                } else {
                    r matches Err(e) && e@ == (ErrorV::Held { key: self.guard.key@ })
                },
                Err(m) => r matches Err(e) && e@ == ErrorV::Backend(
                    "semantic acquire failed: "@ + m@,
                ),
            },
    {
        match reply {
            Ok((status, fence)) => {
                let key = self.guard.key.as_str();
                if status != 1 {
                    return Err(held(key));
                }
                Ok(
                    manager.build_handle_from_parts(
                        key,
                        self.owner,
                        fence as u64,
                        self.guard.ttl,
                    ),
                )
            },
            Err(m) => Err(backend("semantic acquire failed: ", m.as_str())),
        }
    }
}

impl RedisLockManager {
    /// Starts a semantic acquisition of `key`.
    pub fn acquire_where(&self, key: &str) -> (r: SemanticGuard)
        ensures
            r.key@ == key@,
            r.preds@.len() == 0,
            r.ttl@ == 30_000_000_000,
            !r.watchdog,
    {
        SemanticGuard::new(key)
    }
}

/// Every predicate is tested: the condition of the grant contains the condition
/// of each predicate.
pub proof fn every_predicate_is_tested(ps: Seq<PredicateV>, i: int)
    requires
        0 <= i < ps.len(),
    ensures
        exists|before: Seq<char>, after: Seq<char>|
            conjunction(ps) == #[trigger] (before + lua(ps[i]) + after),
    decreases ps.len(),
{
    if ps.len() == 1 {
        assert(conjunction(ps) =~= seq![] + lua(ps[i]) + seq![]);
    } else if i == ps.len() - 1 {
        let before = conjunction(ps.drop_last()) + " and "@;
        assert(conjunction(ps) =~= before + lua(ps[i]) + seq![]);
    } else {
        let rest = ps.drop_last();
        every_predicate_is_tested(rest, i);
        let (before, after) = choose|before: Seq<char>, after: Seq<char>|
            conjunction(rest) == #[trigger] (before + lua(rest[i]) + after);
        let tail = after + " and "@ + lua(ps.last());
        assert(conjunction(ps) =~= before + lua(ps[i]) + tail);
    }
}

/// The character that a backslash before `text` stands for.
pub open spec fn unescape(text: Seq<char>) -> Option<char> {
    if text.len() == 0 {
        None
    } else if text[0] == '\'' || text[0] == '\\' {
        Some(text[0])
    } else if text[0] == 'n' {
        Some('\n')
    } else if text[0] == 'r' {
        Some('\r')
    } else {
        None
    }
}

/// What the store reads from `text` behind the opening quote of a string in
/// single quotes: what the string says, and what follows its closing quote.
/// `None` where the string does not end on its line, or holds a backslash
/// before anything but a quote, a backslash, `n` or `r`.
pub open spec fn quoted(text: Seq<char>) -> Option<(Seq<char>, Seq<char>)>
    decreases text.len(),
{
    if text.len() == 0 || text[0] == '\n' || text[0] == '\r' {
        None
    } else if text[0] == '\'' {
        Some((seq![], text.skip(1)))
    } else if text[0] == '\\' {
        if text.len() == 1 {
            None
        } else {
            match (unescape(text.skip(1)), quoted(text.skip(2))) {
                (Some(c), Some((said, rest))) => Some((seq![c] + said, rest)),
                _ => None,
            }
        }
    } else {
        match quoted(text.skip(1)) {
            Some((said, rest)) => Some((seq![text[0]] + said, rest)),
            None => None,
        }
    }
}

/// An escaped text reads back as the text: between single quotes, the store
/// takes exactly the escaped text for the string, and reads from it the text
/// that was meant, whatever the text holds and whatever follows.
pub proof fn escaped_texts_read_back(s: Seq<char>, rest: Seq<char>)
    ensures
        quoted(escaped(s) + "'"@ + rest) == Some((s, rest)),
    decreases s.len(),
{
    reveal_strlit("'");
    let end = "'"@ + rest;
    let text = escaped(s) + "'"@ + rest;
    assert(text =~= escaped(s) + end);
    if s.len() == 0 {
        assert(text =~= end);
        assert(text[0] == '\'');
        assert(text.skip(1) =~= rest);
    } else {
        let c = s[0];
        let tail = s.skip(1);
        lemma_escaped_first(s);
        escaped_texts_read_back(tail, rest);
        let read = escaped(tail) + "'"@ + rest;
        assert(text =~= escape(c) + read);
        if escape(c).len() == 2 {
            assert(text[0] == '\\');
            assert(text.skip(1)[0] == escape(c)[1]);
            assert(text.skip(2) =~= read);
        } else {
            assert(text[0] == c);
            assert(text.skip(1) =~= read);
        }
        assert(seq![c] + tail =~= s);
    }
}

/// Escaping goes character by character.
proof fn lemma_escaped_first(s: Seq<char>)
    requires
        s.len() > 0,
    ensures
        escaped(s) == escape(s[0]) + escaped(s.skip(1)),
    decreases s.len(),
{
    let head = escape(s[0]);
    if s.len() == 1 {
        assert(s.drop_last() =~= seq![]);
        assert(s.skip(1) =~= seq![]);
        assert(escaped(s) =~= head + escaped(s.skip(1)));
    } else {
        let front = s.drop_last();
        lemma_escaped_first(front);
        assert(front.skip(1) =~= s.skip(1).drop_last());
        assert(s.skip(1).last() == s.last());
        assert(escaped(s) =~= head + escaped(s.skip(1)));
    }
}

} // verus!
