//! Account identities: identifier syntax, fresh dev-account identifiers,
//! and the request body for the out-of-band account-creation service.

use vstd::prelude::*;
use vstd::string::{StringExecFns, StrSliceExecFns};
use rand::Rng;
use crate::Error;
use crate::strutil::{
    dec_str, is_digit_char, lemma_dec_str_digits, lemma_dec_str_len, pow10, push_char, u64_to_dec,
};

verus! {

pub open spec fn is_lower_alnum(c: char) -> bool {
    (97 <= c as u32 <= 122) || (48 <= c as u32 <= 57)
}

pub open spec fn is_separator_char(c: char) -> bool {
    c == '-' || c == '_' || c == '.'
}

pub open spec fn is_account_char(c: char) -> bool {
    is_lower_alnum(c) || is_separator_char(c)
}

/// Account-identifier syntax: 2 to 64 characters, lowercase alphanumerics
/// and the separators `-`, `_`, `.`; separators only between alphanumerics.
pub open spec fn valid_account_id(s: Seq<char>) -> bool {
    &&& 2 <= s.len() <= 64
    &&& forall|i: int| 0 <= i < s.len() ==> is_account_char(#[trigger] s[i])
    &&& !is_separator_char(s[0])
    &&& !is_separator_char(s[s.len() - 1])
    &&& forall|i: int|
        0 < i < s.len() ==> !(is_separator_char(#[trigger] s[i]) && is_separator_char(s[i - 1]))
}

fn separator(c: char) -> (r: bool)
    ensures
        r == is_separator_char(c),
{
    c == '-' || c == '_' || c == '.'
}

fn account_char(c: char) -> (r: bool)
    ensures
        r == is_account_char(c),
{
    let u = c as u32;
    (97 <= u && u <= 122) || (48 <= u && u <= 57) || separator(c)
}

/// Checks a string against the account-identifier syntax.
pub fn is_valid_account_id(s: &str) -> (r: bool)
    ensures
        r == valid_account_id(s@),
{
    let n = s.unicode_len();
    if n < 2 || n > 64 {
        return false;
    }
    let mut i: usize = 0;
    while i < n
        invariant
            n == s@.len(),
            2 <= n <= 64,
            0 <= i <= n,
            forall|j: int| 0 <= j < i ==> is_account_char(#[trigger] s@[j]),
            i > 0 ==> !is_separator_char(s@[0]),
            forall|j: int|
                0 < j < i ==> !(is_separator_char(#[trigger] s@[j]) && is_separator_char(
                    s@[j - 1],
                )),
            i == n ==> !is_separator_char(s@[n - 1]),
        decreases n - i,
    {
        let c = s.get_char(i);
        if !account_char(c) {
            return false;
        }
        if separator(c) {
            if i == 0 || i == n - 1 {
                return false;
            }
            if separator(s.get_char(i - 1)) {
                return false;
            }
        }
        i += 1;
    }
    true
}

/// An account identifier together with the invariant that it is
/// syntactically valid.
#[derive(Debug)]
pub struct AccountId {
    id: String,
}

impl View for AccountId {
    type V = Seq<char>;

    closed spec fn view(&self) -> Seq<char> {
        self.id@
    }
}

impl AccountId {
    #[verifier::type_invariant]
    spec fn type_inv(self) -> bool {
        valid_account_id(self.id@)
    }

    /// Accepts a string as an account identifier exactly when it satisfies
    /// the identifier syntax.
    pub fn parse(s: String) -> (r: Result<AccountId, Error>)
        ensures
            match r {
                Ok(a) => valid_account_id(s@) && a@ == s@,
                Err(e) => !valid_account_id(s@) && e == Error::InvalidAccountId,
            },
    {
        if is_valid_account_id(s.as_str()) {
            Ok(AccountId { id: s })
        } else {
            Err(Error::InvalidAccountId)
        }
    }

    pub fn as_str(&self) -> (r: &str)
        ensures
            r@ == self@,
    {
        self.id.as_str()
    }
}

/// The shape of a dev-account identifier: a fixed prefix, the timestamp
/// digits, and a random numeric suffix.
pub open spec fn dev_account_chars(ts: Seq<char>, num: u64) -> Seq<char> {
    "dev-"@ + ts + "-"@ + dec_str(num as nat)
}

/// Law: a dev-account identifier is syntactically valid whenever its
/// timestamp part consists of 1 to 39 digits, whatever the numeric suffix.
pub proof fn lemma_dev_account_id_valid(ts: Seq<char>, num: u64)
    requires
        1 <= ts.len() <= 39,
        forall|i: int| 0 <= i < ts.len() ==> is_digit_char(#[trigger] ts[i]),
    ensures
        valid_account_id(dev_account_chars(ts, num)),
{
    reveal_strlit("dev-");
    reveal_strlit("-");
    lemma_dec_str_digits(num as nat);
    assert(pow10(20) == 100000000000000000000) by {
        reveal_with_fuel(pow10, 21);
    }
    lemma_dec_str_len(num as nat, 20);
    let a = "dev-"@;
    let b = ts;
    let c = "-"@;
    let d = dec_str(num as nat);
    let s = dev_account_chars(ts, num);
    assert(a.len() == 4);
    assert(c.len() == 1);
    assert(a[0] == 'd' && a[1] == 'e' && a[2] == 'v' && a[3] == '-');
    assert(c[0] == '-');
    let n = s.len() as int;
    assert(n == 5 + b.len() + d.len());
    assert forall|i: int| 0 <= i < n implies is_account_char(#[trigger] s[i]) by {
        if i < 4 {
            assert(s[i] == a[i]);
        } else if i < 4 + b.len() {
            assert(s[i] == b[i - 4]);
            assert(is_digit_char(b[i - 4]));
        } else if i == 4 + b.len() {
            assert(s[i] == c[0]);
        } else {
            assert(s[i] == d[i - 5 - b.len()]);
            assert(is_digit_char(d[i - 5 - b.len()]));
        }
    }
    assert(s[0] == a[0]);
    assert(!is_separator_char(s[0]));
    assert(s[n - 1] == d[d.len() - 1]);
    assert(is_digit_char(d[d.len() - 1]));
    assert(!is_separator_char(s[n - 1]));
    assert forall|i: int|
        0 < i < n implies !(is_separator_char(#[trigger] s[i]) && is_separator_char(
        s[i - 1],
    )) by {
        if is_separator_char(s[i]) {
            assert(i == 3 || i == 4 + b.len()) by {
                if i < 4 {
                    assert(s[i] == a[i]);
                } else if i < 4 + b.len() {
                    assert(s[i] == b[i - 4]);
                    assert(is_digit_char(b[i - 4]));
                } else if i > 4 + b.len() {
                    assert(s[i] == d[i - 5 - b.len()]);
                    assert(is_digit_char(d[i - 5 - b.len()]));
                }
            }
            if i == 3 {
                assert(s[i - 1] == a[2]);
            } else {
                assert(s[i - 1] == b[b.len() - 1]);
                assert(is_digit_char(b[b.len() - 1]));
            }
            assert(!is_separator_char(s[i - 1]));
        }
    }
}

/// Builds the dev-account identifier for the given timestamp digits and
/// numeric suffix, accepting it exactly when it is syntactically valid.
pub fn make_dev_account_id(ts: &str, num: u64) -> (r: Result<AccountId, Error>)
    ensures
        match r {
            Ok(a) => a@ == dev_account_chars(ts@, num) && valid_account_id(a@),
            Err(e) => !valid_account_id(dev_account_chars(ts@, num)) && e
                == Error::InvalidAccountId,
        },
{
    let mut s = String::from_str("dev-");
    s.append(ts);
    s.append("-");
    let digits = u64_to_dec(num);
    s.append(digits.as_str());
    proof {
        assert(s@ =~= dev_account_chars(ts@, num));
    }
    if is_valid_account_id(s.as_str()) {
        Ok(AccountId { id: s })
    } else {
        Err(Error::InvalidAccountId)
    }
}

/// The character for the hexadecimal digit `d`, lowercase.
pub open spec fn hex_digit_char(d: nat) -> char
    recommends
        d < 16,
{
    if d < 10 {
        ((48 + d) as u8) as char
    } else {
        ((87 + d) as u8) as char
    }
}

/// How one character is written inside a JSON string literal: quote and
/// backslash get a backslash escape, control characters a `\u00..` escape,
/// everything else stands as it is.
pub open spec fn json_escaped_char(c: char) -> Seq<char> {
    if c == '"' {
        seq!['\\', '"']
    } else if c == '\\' {
        seq!['\\', '\\']
    } else if (c as u32) < 32 {
        seq!['\\', 'u', '0', '0'] + seq![
            hex_digit_char(((c as u32) / 16) as nat),
            hex_digit_char(((c as u32) % 16) as nat),
        ]
    } else {
        seq![c]
    }
}

/// A character sequence as it is written inside a JSON string literal.
pub open spec fn json_escaped(s: Seq<char>) -> Seq<char>
    decreases s.len(),
{
    if s.len() == 0 {
        Seq::empty()
    } else {
        json_escaped_char(s[0]) + json_escaped(s.drop_first())
    }
}

proof fn lemma_json_escaped_push(s: Seq<char>, c: char)
    ensures
        json_escaped(s.push(c)) == json_escaped(s) + json_escaped_char(c),
    decreases s.len(),
{
    if s.len() == 0 {
        assert(s.push(c)[0] == c);
        assert(s.push(c).drop_first() =~= Seq::<char>::empty());
        assert(json_escaped(s.push(c)) == json_escaped_char(c) + json_escaped(
            Seq::<char>::empty(),
        ));
        assert(json_escaped(Seq::<char>::empty()) == Seq::<char>::empty());
        assert(json_escaped(s.push(c)) =~= json_escaped(s) + json_escaped_char(c));
    } else {
        assert(s.push(c)[0] == s[0]);
        assert(s.push(c).drop_first() =~= s.drop_first().push(c));
        lemma_json_escaped_push(s.drop_first(), c);
        assert(json_escaped_char(s[0]) + (json_escaped(s.drop_first()) + json_escaped_char(c))
            =~= (json_escaped_char(s[0]) + json_escaped(s.drop_first())) + json_escaped_char(c));
    }
}

/// Escapes a string for inclusion in a JSON string literal.
pub fn json_escape(s: &str) -> (r: String)
    ensures
        r@ == json_escaped(s@),
{
    let n = s.unicode_len();
    let mut out = String::new();
    let mut i: usize = 0;
    proof {
        assert(s@.take(0) =~= Seq::<char>::empty());
    }
    while i < n
        invariant
            n == s@.len(),
            0 <= i <= n,
            out@ == json_escaped(s@.take(i as int)),
        decreases n - i,
    {
        let c = s.get_char(i);
        proof {
            lemma_json_escaped_push(s@.take(i as int), c);
            assert(s@.take(i as int).push(c) =~= s@.take(i as int + 1));
        }
        let u = c as u32;
        if c == '"' {
            out.append("\\\"");
            proof {
                reveal_strlit("\\\"");
                assert(out@ =~= json_escaped(s@.take(i as int + 1)));
            }
        } else if c == '\\' {
            out.append("\\\\");
            proof {
                reveal_strlit("\\\\");
                assert(out@ =~= json_escaped(s@.take(i as int + 1)));
            }
        } else if u < 32 {
            out.append("\\u00");
            let hi = (u / 16) as u8;
            let lo = (u % 16) as u8;
            push_char(&mut out, (48 + hi) as char);
            push_char(
                &mut out,
                if lo < 10 {
                    (48 + lo) as char
                } else {
                    (87 + lo) as char
                },
            );
            proof {
                reveal_strlit("\\u00");
                assert(out@ =~= json_escaped(s@.take(i as int + 1)));
            }
        } else {
            push_char(&mut out, c);
            proof {
                assert(out@ =~= json_escaped(s@.take(i as int + 1)));
            }
        }
        i += 1;
    }
    proof {
        assert(s@.take(n as int) =~= s@);
    }
    out
}

/// The JSON body posted to the account-creation helper service: the new
/// account's identifier and its public key.
pub open spec fn create_account_body_spec(account: Seq<char>, public_key: Seq<char>) -> Seq<
    char,
> {
    "{\"newAccountId\":\""@ + json_escaped(account) + "\",\"newAccountPublicKey\":\""@
        + json_escaped(public_key) + "\"}"@
}

/// Builds the request body for the out-of-band account-creation service.
pub fn create_account_request_body(account_id: &AccountId, public_key: &str) -> (r: String)
    ensures
        r@ == create_account_body_spec(account_id@, public_key@),
{
    let mut s = String::from_str("{\"newAccountId\":\"");
    let escaped_id = json_escape(account_id.as_str());
    s.append(escaped_id.as_str());
    s.append("\",\"newAccountPublicKey\":\"");
    let escaped_key = json_escape(public_key);
    s.append(escaped_key.as_str());
    s.append("\"}");
    proof {
        assert(s@ =~= create_account_body_spec(account_id@, public_key@));
    }
    s
}

/// Relies on `chrono::Utc::now` and its `%Y%m%d%H%M%S` format: the current
/// UTC time compacted to digits at second granularity. The result depends on
/// the clock, so nothing is promised of it.
#[verifier::external_body]
fn utc_timestamp_compact() -> String {
    chrono::Utc::now().format("%Y%m%d%H%M%S").to_string()
}

/// Relies on `rand::Rng::gen_range` on the thread-local generator: a value
/// drawn from `lo..hi`. The call panics on an empty range, so one is ruled
/// out here.
#[verifier::external_body]
fn gen_range_u64(lo: u64, hi: u64) -> (r: u64)
    requires
        lo < hi,
    ensures
        lo <= r < hi,
{
    rand::thread_rng().gen_range(lo..hi)
}

/// Synthesizes an account identifier unique enough for test isolation: the
/// fixed prefix, the current UTC timestamp at second granularity, and a
/// random numeric suffix of fixed width. A result that does not satisfy the
/// identifier syntax is a hard failure.
pub fn random_account_id() -> (r: Result<AccountId, Error>)
    ensures
        r matches Ok(a) ==> valid_account_id(a@) && a@.len() >= 4 && a@.subrange(0, 4)
            == "dev-"@,
        r matches Err(e) ==> e == Error::InvalidAccountId,
{
    let ts = utc_timestamp_compact();
    let num = gen_range_u64(10_000_000_000_000, 99_999_999_999_999);
    let r = make_dev_account_id(ts.as_str(), num);
    proof {
        match r {
            Ok(ref a) => {
                reveal_strlit("dev-");
                assert(a@.subrange(0, 4) =~= "dev-"@);
            },
            Err(_) => {},
        }
    }
    r
}

} // verus!
