//! Identifiers of the requests that the client sends.
//!
//! The registration handshake is sent under the id `"0"`; every command after
//! it takes the next value of a counter, written in decimal.
use vstd::prelude::*;

verus! {

/// The ten decimal digits, `'0'` to `'9'`.
pub open spec fn decimal_digits() -> Seq<char> {
    seq!['0', '1', '2', '3', '4', '5', '6', '7', '8', '9']
}

/// The decimal notation of `n`, without leading zeros (what `u64::to_string` writes).
pub open spec fn decimal(n: nat) -> Seq<char>
    decreases n,
{
    if n < 10 {
        seq![decimal_digits()[n as int]]
    } else {
        decimal(n / 10).push(decimal_digits()[(n % 10) as int])
    }
}

/// The decimal notation of a number is never empty, and it has one digit exactly
/// when the number is below ten.
pub proof fn lemma_decimal_len(n: nat)
    ensures
        decimal(n).len() >= 1,
        decimal(n).len() == 1 <==> n < 10,
    decreases n,
{
    if n >= 10 {
        lemma_decimal_len(n / 10);
    }
}

/// Two numbers with the same decimal notation are equal.
pub proof fn lemma_decimal_injective(a: nat, b: nat)
    requires
        decimal(a) == decimal(b),
    ensures
        a == b,
    decreases a,
{
    lemma_decimal_len(a);
    lemma_decimal_len(b);
    let digits = decimal_digits();
    if a < 10 && b < 10 {
        assert(decimal(a)[0] == digits[a as int]);
        assert(decimal(b)[0] == digits[b as int]);
    } else if a >= 10 && b >= 10 {
        let da = decimal(a);
        let db = decimal(b);
        assert(da.drop_last() =~= decimal(a / 10));
        assert(db.drop_last() =~= decimal(b / 10));
        lemma_decimal_injective(a / 10, b / 10);
        assert(da.last() == digits[(a % 10) as int]);
        assert(db.last() == digits[(b % 10) as int]);
        assert(a % 10 == b % 10);
    }
}

/// The one-character string of the digit `d`.
fn digit_str(d: u64) -> (res: &'static str)
    requires
        d < 10,
    ensures
        res@ == seq![decimal_digits()[d as int]],
{
    let s = if d == 0 {
        "0"
    } else if d == 1 {
        "1"
    } else if d == 2 {
        "2"
    } else if d == 3 {
        "3"
    } else if d == 4 {
        "4"
    } else if d == 5 {
        "5"
    } else if d == 6 {
        "6"
    } else if d == 7 {
        "7"
    } else if d == 8 {
        "8"
    } else {
        "9"
    };
    proof {
        reveal_strlit("0");
        reveal_strlit("1");
        reveal_strlit("2");
        reveal_strlit("3");
        reveal_strlit("4");
        reveal_strlit("5");
        reveal_strlit("6");
        reveal_strlit("7");
        reveal_strlit("8");
        reveal_strlit("9");
        assert(s@ =~= seq![decimal_digits()[d as int]]);
    }
    s
}

/// Writes `n` in decimal, as `n.to_string()` does.
pub fn decimal_string(n: u64) -> (res: String)
    ensures
        res@ == decimal(n as nat),
    decreases n,
{
    if n < 10 {
        digit_str(n).to_owned()
    } else {
        let mut res = decimal_string(n / 10);
        res.append(digit_str(n % 10));
        res
    }
}

/// Hands out the ids of commands: the counter starts at zero and is raised by
/// one before each command, so the first command is sent as `"1"`.
pub struct CommandIdGenerator {
    next_command_id: u64,
}

impl CommandIdGenerator {
    /// The number that the last generated id spells (zero before the first).
    pub closed spec fn last_id(&self) -> nat {
        self.next_command_id as nat
    }

    /// A generator that has handed out no id yet.
    pub fn new() -> (res: CommandIdGenerator)
        ensures
            res.last_id() == 0,
    {
        CommandIdGenerator { next_command_id: 0 }
    }

    /// Whether another id can be generated without the counter overflowing.
    pub fn has_next_id(&self) -> (res: bool)
        ensures
            res == (self.last_id() < u64::MAX),
    {
        self.next_command_id < u64::MAX
    }

    /// Raises the counter by one and returns its new value in decimal.
    pub fn generate_next_id(&mut self) -> (id: String)
        requires
            old(self).last_id() < u64::MAX,
        ensures
            final(self).last_id() == old(self).last_id() + 1,
            id@ == decimal(final(self).last_id()),
    {
        self.next_command_id = self.next_command_id + 1;
        decimal_string(self.next_command_id)
    }
}

/// The id under which the registration handshake is sent: zero, in decimal.
pub fn registration_id() -> (res: String)
    ensures
        res@ == decimal(0),
{
    decimal_string(0)
}

/// Every id that the generator hands out is new: ids generated at different
/// counts differ from one another and from the registration id.
pub proof fn lemma_command_ids_are_fresh(earlier: nat, later: nat)
    requires
        1 <= earlier < later,
    ensures
        decimal(earlier) != decimal(later),
        decimal(earlier) != decimal(0),
        decimal(later) != decimal(0),
{
    if decimal(earlier) == decimal(later) {
        lemma_decimal_injective(earlier, later);
    }
    if decimal(earlier) == decimal(0) {
        lemma_decimal_injective(earlier, 0);
    }
    if decimal(later) == decimal(0) {
        lemma_decimal_injective(later, 0);
    }
}

/// The ids that `k` successive calls hand out, starting from a new generator,
/// are `"1"`, `"2"`, ..., `k` in decimal: no two are the same and none is the
/// registration id.
pub proof fn lemma_generated_ids_are_distinct(ids: Seq<Seq<char>>)
    requires
        forall|i: int| 0 <= i < ids.len() ==> #[trigger] ids[i] == decimal((i + 1) as nat),
    ensures
        ids.no_duplicates(),
        !ids.contains(decimal(0)),
{
    assert forall|i: int, j: int| 0 <= i < ids.len() && 0 <= j < ids.len() && i != j implies ids[i]
        != ids[j] by {
        if i < j {
            lemma_command_ids_are_fresh((i + 1) as nat, (j + 1) as nat);
        } else {
            lemma_command_ids_are_fresh((j + 1) as nat, (i + 1) as nat);
        }
    }
    if ids.contains(decimal(0)) {
        let i = choose|i: int| 0 <= i < ids.len() && ids[i] == decimal(0);
        assert(ids[i] == decimal((i + 1) as nat));
        lemma_decimal_injective((i + 1) as nat, 0);
    }
}

/// The value of a decimal digit character (its distance from `'0'`).
pub open spec fn digit_value(c: char) -> int {
    (c as int) - ('0' as int)
}

/// The number that a string of decimal digits spells, most significant digit first.
pub open spec fn digits_value(s: Seq<char>) -> int
    decreases s.len(),
{
    if s.len() == 0 {
        0
    } else {
        digits_value(s.drop_last()) * 10 + digit_value(s.last())
    }
}

/// The decimal digits are the characters `'0'` to `'9'`, in order.
proof fn lemma_digit(d: int)
    requires
        0 <= d < 10,
    ensures
        digit_value(decimal_digits()[d]) == d,
        '0' <= decimal_digits()[d] <= '9',
{
    if d == 0 {} else if d == 1 {} else if d == 2 {} else if d == 3 {} else if d == 4 {
    } else if d == 5 {} else if d == 6 {} else if d == 7 {} else if d == 8 {} else {}
}

/// `decimal(n)` is made of the characters `'0'` to `'9'` only, begins with a
/// nonzero digit unless it is the single digit of a number below ten, and spells `n`.
pub proof fn lemma_decimal_spells(n: nat)
    ensures
        forall|i: int| 0 <= i < decimal(n).len() ==> '0' <= #[trigger] decimal(n)[i] <= '9',
        decimal(n).len() > 1 ==> decimal(n)[0] != '0',
        digits_value(decimal(n)) == n,
    decreases n,
{
    let s = decimal(n);
    if n < 10 {
        lemma_digit(n as int);
        assert(s.drop_last() =~= Seq::<char>::empty());
        assert(digits_value(Seq::<char>::empty()) == 0);
        assert(digits_value(s) == digits_value(s.drop_last()) * 10 + digit_value(s.last()));
    } else {
        let q = n / 10;
        lemma_decimal_spells(q);
        lemma_decimal_len(q);
        lemma_digit((n % 10) as int);
        assert(s.drop_last() =~= decimal(q));
        assert(digits_value(s) == digits_value(decimal(q)) * 10 + digit_value(s.last()));
        assert(n == q * 10 + n % 10);
        assert forall|i: int| 0 <= i < s.len() implies '0' <= #[trigger] s[i] <= '9' by {
            if i < s.len() - 1 {
                assert(s[i] == decimal(q)[i]);
            }
        }
        if decimal(q).len() == 1 {
            assert(q < 10);
            lemma_digit(q as int);
            assert(s[0] == decimal(q)[0]);
            assert(q != 0);
            assert(digit_value(s[0]) == q);
        } else {
            assert(s[0] == decimal(q)[0]);
        }
    }
}

} // verus!
