use vstd::prelude::*;

verus! {

/// Bit pattern of the IEEE-754 double nearest to 0.01, the smallest accepted amount.
pub const MIN_AMOUNT_BITS: u64 = 0x3F84_7AE1_47AE_147B;

/// Bit pattern of positive infinity. With the sign bit clear, every larger
/// pattern is a NaN.
pub const POSITIVE_INFINITY_BITS: u64 = 0x7FF0_0000_0000_0000;

/// Longest accepted category, in characters.
pub const MAX_CATEGORY_CHARS: usize = 50;

pub const AMOUNT_FAILURE: &'static str = "amount: Amount must be greater than 0";

pub const CATEGORY_FAILURE: &'static str = "category: Category must be between 1 and 50 characters";

/// A monetary amount: the bit pattern of an IEEE-754 double.
#[derive(Clone, Copy, Debug, PartialEq, Eq, Structural)]
pub struct Amount {
    pub bits: u64,
}

/// Whether the double with this bit pattern compares `>= 0.01`.
///
/// Doubles with the sign bit clear order as their bit patterns do, and those
/// above positive infinity are NaN, which compares false. Every pattern with
/// the sign bit set is above `POSITIVE_INFINITY_BITS` and stands for a value
/// below zero (or a NaN, or negative zero).
pub open spec fn amount_meets_minimum(bits: u64) -> bool {
    MIN_AMOUNT_BITS <= bits <= POSITIVE_INFINITY_BITS
}

/// Whether a category has between 1 and 50 characters.
pub open spec fn category_len_ok(category: Seq<char>) -> bool {
    1 <= category.len() <= MAX_CATEGORY_CHARS
}

/// Whether a request with this amount and category passes validation.
pub open spec fn request_is_valid(amount: Amount, category: Seq<char>) -> bool {
    amount_meets_minimum(amount.bits) && category_len_ok(category)
}

impl Amount {
    pub fn from_bits(bits: u64) -> (r: Amount)
        ensures
            r.bits == bits,
    {
        Amount { bits }
    }

    /// Whether this amount is at least 0.01.
    pub fn meets_minimum(&self) -> (r: bool)
        ensures
            r == amount_meets_minimum(self.bits),
    {
        MIN_AMOUNT_BITS <= self.bits && self.bits <= POSITIVE_INFINITY_BITS
    }
}

/// An instant in UTC: whole seconds since the Unix epoch and the nanoseconds
/// past that second.
#[derive(Clone, Copy, Debug, PartialEq, Eq, Structural)]
pub struct Timestamp {
    pub secs: i64,
    pub nanos: u32,
}

/// Whether instant `a` comes strictly before instant `b`.
pub open spec fn is_before(a: Timestamp, b: Timestamp) -> bool {
    a.secs < b.secs || (a.secs == b.secs && a.nanos < b.nanos)
}

impl Timestamp {
    /// Whether this instant comes strictly before `other`.
    pub fn before(&self, other: &Timestamp) -> (r: bool)
        ensures
            r == is_before(*self, *other),
    {
        self.secs < other.secs || (self.secs == other.secs && self.nanos < other.nanos)
    }
}

/// A candidate expense, before validation.
#[derive(Clone, Debug)]
pub struct CreateExpenseRequest {
    pub amount: Amount,
    pub category: String,
}

/// Which fields of a request broke a rule.
#[derive(Clone, Copy, Debug, PartialEq, Eq, Structural)]
pub struct ValidationError {
    pub amount_rejected: bool,
    pub category_rejected: bool,
}

/// The text that reports the rejected fields, one line per field.
pub open spec fn validation_message(amount_rejected: bool, category_rejected: bool) -> Seq<char> {
    if amount_rejected && category_rejected {
        AMOUNT_FAILURE@ + "\n"@ + CATEGORY_FAILURE@
    } else if amount_rejected {
        AMOUNT_FAILURE@
    } else if category_rejected {
        CATEGORY_FAILURE@
    } else {
        Seq::empty()
    }
}

impl ValidationError {
    /// The message that names each rejected field.
    pub fn message(&self) -> (r: String)
        ensures
            r@ == validation_message(self.amount_rejected, self.category_rejected),
    {
        if self.amount_rejected && self.category_rejected {
            let text = String::from_str(AMOUNT_FAILURE);
            let text = text.concat("\n");
            text.concat(CATEGORY_FAILURE)
        } else if self.amount_rejected {
            String::from_str(AMOUNT_FAILURE)
        } else if self.category_rejected {
            String::from_str(CATEGORY_FAILURE)
        } else {
            String::new()
        }
    }
}

impl CreateExpenseRequest {
    pub fn new(amount: Amount, category: String) -> (r: CreateExpenseRequest)
        ensures
            r.amount == amount,
            r.category@ == category@,
    {
        CreateExpenseRequest { amount, category }
    }

    /// Checks the amount (at least 0.01) and the category (1 to 50
    /// characters, taken as given, without trimming).
    pub fn validate(&self) -> (r: Result<(), ValidationError>)
        ensures
            r is Ok <==> request_is_valid(self.amount, self.category@),
            r matches Err(e) ==> {
                &&& e.amount_rejected == !amount_meets_minimum(self.amount.bits)
                &&& e.category_rejected == !category_len_ok(self.category@)
            },
    {
        let amount_ok = self.amount.meets_minimum();
        let chars = self.category.as_str().unicode_len();
        let category_ok = 1 <= chars && chars <= MAX_CATEGORY_CHARS;
        if amount_ok && category_ok {
            Ok(())
        } else {
            Err(ValidationError { amount_rejected: !amount_ok, category_rejected: !category_ok })
        }
    }
}

/// A stored expense.
#[derive(Clone, Debug)]
pub struct Expense {
    pub id: u128,
    pub amount: Amount,
    pub category: String,
    pub date: Timestamp,
}

/// What an expense holds, with the category as its characters.
pub struct ExpenseView {
    pub id: u128,
    pub amount: Amount,
    pub category: Seq<char>,
    pub date: Timestamp,
}

impl View for Expense {
    type V = ExpenseView;

    open spec fn view(&self) -> ExpenseView {
        ExpenseView { id: self.id, amount: self.amount, category: self.category@, date: self.date }
    }
}

/// Whether a record obeys the rules that every stored record obeys.
pub open spec fn record_is_valid(e: ExpenseView) -> bool {
    request_is_valid(e.amount, e.category)
}

impl Expense {
    /// A record with the given identity, fields and creation time.
    pub fn from_parts(id: u128, amount: Amount, category: String, date: Timestamp) -> (r: Expense)
        ensures
            r@ == (ExpenseView { id, amount, category: category@, date }),
    {
        Expense { id, amount, category, date }
    }

    /// A copy of this record.
    pub fn duplicate(&self) -> (r: Expense)
        ensures
            r@ == self@,
    {
        Expense { id: self.id, amount: self.amount, category: self.category.clone(), date: self.date }
    }
}

} // verus!
