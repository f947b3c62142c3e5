use vstd::prelude::*;

use vstd::string::StringExecFns;

verus! {

/// The operations the calculator supports.
#[derive(Clone, Copy)]
pub enum OperationType {
    Addition,
    Subtraction,
    Multiplication,
}

/// The mathematical result of an operation, before any width limit.
pub open spec fn op_value(op: OperationType, x: int, y: int) -> int {
    match op {
        OperationType::Addition => x + y,
        OperationType::Subtraction => x - y,
        OperationType::Multiplication => x * y,
    }
}

/// What performing an operation returns: the exact result when it fits in an
/// `i64`, nothing on overflow.
pub open spec fn perform_spec(op: OperationType, x: i64, y: i64) -> Option<i64> {
    if i64::MIN <= op_value(op, x as int, y as int) <= i64::MAX {
        Some(op_value(op, x as int, y as int) as i64)
    } else {
        None
    }
}

/// The rendering of each operation's sign.
pub open spec fn sign_of(op: OperationType) -> Seq<char> {
    match op {
        OperationType::Addition => seq!['+'],
        OperationType::Subtraction => seq!['-'],
        OperationType::Multiplication => seq!['*'],
    }
}

impl OperationType {
    /// The sign that renders this operation in a history line.
    pub fn get_sign(&self) -> (r: &str)
        ensures
            r@ == sign_of(*self),
    {
        match self {
            OperationType::Addition => {
                let r = "+";
                proof {
                    reveal_strlit("+");
                    assert(r@ =~= sign_of(OperationType::Addition));
                }
                r
            },
            OperationType::Subtraction => {
                let r = "-";
                proof {
                    reveal_strlit("-");
                    assert(r@ =~= sign_of(OperationType::Subtraction));
                }
                r
            },
            OperationType::Multiplication => {
                let r = "*";
                proof {
                    reveal_strlit("*");
                    assert(r@ =~= sign_of(OperationType::Multiplication));
                }
                r
            },
        }
    }

    /// Perform the operation on two numbers, refusing to overflow: the exact
    /// result when it fits in an `i64`, `None` otherwise.
    pub fn perform(&self, x: i64, y: i64) -> (r: Option<i64>)
        ensures
            r == perform_spec(*self, x, y),
    {
        match self {
            OperationType::Addition => x.checked_add(y),
            OperationType::Subtraction => x.checked_sub(y),
            OperationType::Multiplication => x.checked_mul(y),
        }
    }
}

/// One remembered calculation: its two operands and its kind.
#[derive(Clone, Copy)]
pub struct Operation {
    pub first_num: i64,
    pub second_num: i64,
    pub operation_type: OperationType,
}

impl Operation {
    /// Record an operation exactly as given.
    pub fn new(first_num: i64, second_num: i64, operation_type: OperationType) -> (op: Self)
        ensures
            op == (Operation { first_num, second_num, operation_type }),
    {
        Operation { first_num, second_num, operation_type }
    }
}

/// A calculator that remembers every operation that succeeded.
pub struct Calculator {
    pub history: Vec<Operation>,
}

/// The character for one decimal digit.
pub open spec fn digit_char(d: nat) -> char
    recommends
        d < 10,
{
    if d == 0 {
        '0'
    } else if d == 1 {
        '1'
    } else if d == 2 {
        '2'
    } else if d == 3 {
        '3'
    } else if d == 4 {
        '4'
    } else if d == 5 {
        '5'
    } else if d == 6 {
        '6'
    } else if d == 7 {
        '7'
    } else if d == 8 {
        '8'
    } else {
        '9'
    }
}

/// The decimal digits of `n`, most significant first.
pub open spec fn dec_digits(n: nat) -> Seq<char>
    decreases n,
{
    if n < 10 {
        seq![digit_char(n)]
    } else {
        dec_digits(n / 10).push(digit_char(n % 10))
    }
}

/// The decimal rendering of an integer: its digits, with a leading minus
/// sign when it is negative.
pub open spec fn dec_int(n: int) -> Seq<char> {
    if n < 0 {
        seq!['-'] + dec_digits((-n) as nat)
    } else {
        dec_digits(n as nat)
    }
}

/// One rendered history line: "index: first sign second = result", ended by
/// a newline.
pub open spec fn history_line(index: int, op: Operation) -> Seq<char> {
    dec_int(index) + seq![':', ' '] + dec_int(op.first_num as int) + seq![' '] + sign_of(
        op.operation_type,
    ) + seq![' '] + dec_int(op.second_num as int) + seq![' ', '=', ' '] + dec_int(
        op_value(op.operation_type, op.first_num as int, op.second_num as int),
    ) + seq!['\n']
}

/// The rendering of the first `upto` history entries: one line for each
/// entry whose operation fits in an `i64`, in order; entries that would
/// overflow render nothing.
pub open spec fn show_history_spec(h: Seq<Operation>, upto: int) -> Seq<char>
    decreases upto,
{
    if upto <= 0 {
        Seq::empty()
    } else {
        show_history_spec(h, upto - 1) + (if perform_spec(
            h[upto - 1].operation_type,
            h[upto - 1].first_num,
            h[upto - 1].second_num,
        ) is Some {
            history_line(upto - 1, h[upto - 1])
        } else {
            Seq::empty()
        })
    }
}

/// Append the character of one decimal digit.
fn push_digit(s: &mut String, d: u64)
    requires
        d < 10,
    ensures
        final(s)@ == old(s)@ + seq![digit_char(d as nat)],
{
    if d == 0 {
        s.append("0");
        proof {
            reveal_strlit("0");
            assert(final(s)@ =~= old(s)@ + seq![digit_char(d as nat)]);
        }
    } else if d == 1 {
        s.append("1");
        proof {
            reveal_strlit("1");
            assert(final(s)@ =~= old(s)@ + seq![digit_char(d as nat)]);
        }
    } else if d == 2 {
        s.append("2");
        proof {
            reveal_strlit("2");
            assert(final(s)@ =~= old(s)@ + seq![digit_char(d as nat)]);
        }
    } else if d == 3 {
        s.append("3");
        proof {
            reveal_strlit("3");
            assert(final(s)@ =~= old(s)@ + seq![digit_char(d as nat)]);
        }
    } else if d == 4 {
        s.append("4");
        proof {
            reveal_strlit("4");
            assert(final(s)@ =~= old(s)@ + seq![digit_char(d as nat)]);
        }
    } else if d == 5 {
        s.append("5");
        proof {
            reveal_strlit("5");
            assert(final(s)@ =~= old(s)@ + seq![digit_char(d as nat)]);
        }
    } else if d == 6 {
        s.append("6");
        proof {
            reveal_strlit("6");
            assert(final(s)@ =~= old(s)@ + seq![digit_char(d as nat)]);
        }
    } else if d == 7 {
        s.append("7");
        proof {
            reveal_strlit("7");
            assert(final(s)@ =~= old(s)@ + seq![digit_char(d as nat)]);
        }
    } else if d == 8 {
        s.append("8");
        proof {
            reveal_strlit("8");
            assert(final(s)@ =~= old(s)@ + seq![digit_char(d as nat)]);
        }
    } else {
        s.append("9");
        proof {
            reveal_strlit("9");
            assert(final(s)@ =~= old(s)@ + seq![digit_char(d as nat)]);
        }
    }
}

/// Append the decimal digits of `n`, most significant first.
fn push_u64_digits(s: &mut String, n: u64)
    ensures
        final(s)@ == old(s)@ + dec_digits(n as nat),
    decreases n,
{
    if n >= 10 {
        push_u64_digits(s, n / 10);
    }
    push_digit(s, n % 10);
    proof {
        assert(final(s)@ =~= old(s)@ + dec_digits(n as nat));
    }
}

/// Append the decimal rendering of `n`, sign included.
fn push_i64(s: &mut String, n: i64)
    ensures
        final(s)@ == old(s)@ + dec_int(n as int),
{
    if n < 0 {
        s.append("-");
        proof {
            reveal_strlit("-");
        }
        let mag: u64 = (-(n as i128)) as u64;
        push_u64_digits(s, mag);
        proof {
            assert(final(s)@ =~= old(s)@ + dec_int(n as int));
        }
    } else {
        push_u64_digits(s, n as u64);
    }
}

impl Calculator {
    /// A calculator that has done nothing yet.
    pub fn new() -> (c: Self)
        ensures
            c.history@ == Seq::<Operation>::empty(),
    {
        Calculator { history: Vec::new() }
    }

    /// Add the two numbers. On success the operation joins the history; on
    /// overflow nothing is recorded.
    pub fn addition(&mut self, x: i64, y: i64) -> (r: Option<i64>)
        ensures
            r == perform_spec(OperationType::Addition, x, y),
            r is Some ==> final(self).history@ == old(self).history@.push(
                Operation { first_num: x, second_num: y, operation_type: OperationType::Addition },
            ),
            r is None ==> final(self).history@ == old(self).history@,
    {
        let operation_type = OperationType::Addition;
        match operation_type.perform(x, y) {
            Some(result) => {
                self.history.push(Operation::new(x, y, operation_type));
                Some(result)
            },
            None => None,
        }
    }

    /// Subtract the second number from the first. On success the operation
    /// joins the history; on overflow nothing is recorded.
    pub fn subtraction(&mut self, x: i64, y: i64) -> (r: Option<i64>)
        ensures
            r == perform_spec(OperationType::Subtraction, x, y),
            r is Some ==> final(self).history@ == old(self).history@.push(
                Operation {
                    first_num: x,
                    second_num: y,
                    operation_type: OperationType::Subtraction,
                },
            ),
            r is None ==> final(self).history@ == old(self).history@,
    {
        let operation_type = OperationType::Subtraction;
        match operation_type.perform(x, y) {
            Some(result) => {
                self.history.push(Operation::new(x, y, operation_type));
                Some(result)
            },
            None => None,
        }
    }

    /// Multiply the two numbers. On success the operation joins the history;
    /// on overflow nothing is recorded.
    pub fn multiplication(&mut self, x: i64, y: i64) -> (r: Option<i64>)
        ensures
            r == perform_spec(OperationType::Multiplication, x, y),
            r is Some ==> final(self).history@ == old(self).history@.push(
                Operation {
                    first_num: x,
                    second_num: y,
                    operation_type: OperationType::Multiplication,
                },
            ),
            r is None ==> final(self).history@ == old(self).history@,
    {
        let operation_type = OperationType::Multiplication;
        match operation_type.perform(x, y) {
            Some(result) => {
                self.history.push(Operation::new(x, y, operation_type));
                Some(result)
            },
            None => None,
        }
    }

    /// Render the whole history, one numbered line per entry, skipping any
    /// entry whose operation no longer fits in an `i64`.
    pub fn show_history(&self) -> (r: String)
        ensures
            r@ == show_history_spec(self.history@, self.history@.len() as int),
    {
        let mut result = String::new();
        let mut index: usize = 0;
        while index < self.history.len()
            invariant
                index <= self.history@.len(),
                result@ == show_history_spec(self.history@, index as int),
            decreases self.history@.len() - index,
        {
            let op = self.history[index];
            match op.operation_type.perform(op.first_num, op.second_num) {
                Some(res) => {
                    let ghost before: Seq<char> = result@;
                    push_u64_digits(&mut result, index as u64);
                    result.append(": ");
                    push_i64(&mut result, op.first_num);
                    result.append(" ");
                    result.append(op.operation_type.get_sign());
                    result.append(" ");
                    push_i64(&mut result, op.second_num);
                    result.append(" = ");
                    push_i64(&mut result, res);
                    result.append("\n");
                    proof {
                        reveal_strlit(": ");
                        reveal_strlit(" ");
                        reveal_strlit(" = ");
                        reveal_strlit("\n");
                        assert(result@ =~= before + history_line(index as int, op));
                        assert(result@ =~= show_history_spec(
                            self.history@,
                            index as int + 1,
                        ));
                    }
                },
                None => {},
            }
            index += 1;
        }
        result
    }

    /// Run the operation stored at `operation_index` again. A fresh copy of
    /// the entry joins the history when the operation still succeeds; an
    /// out-of-range index, or an entry that overflows, changes nothing.
    pub fn repeat(&mut self, operation_index: usize) -> (r: Option<i64>)
        ensures
            operation_index < old(self).history@.len() ==> ({
                let op = old(self).history@[operation_index as int];
                &&& r == perform_spec(op.operation_type, op.first_num, op.second_num)
                &&& (r is Some ==> final(self).history@ == old(self).history@.push(op))
                &&& (r is None ==> final(self).history@ == old(self).history@)
            }),
            operation_index >= old(self).history@.len() ==> r is None && final(self).history@
                == old(self).history@,
    {
        if operation_index < self.history.len() {
            let operation = self.history[operation_index];
            let result = operation.operation_type.perform(
                operation.first_num,
                operation.second_num,
            );
            if let Some(res) = result {
                self.history.push(
                    Operation::new(
                        operation.first_num,
                        operation.second_num,
                        operation.operation_type,
                    ),
                );
                return Some(res);
            }
        }
        None
    }

    /// Forget every recorded operation.
    pub fn clear_history(&mut self)
        ensures
            final(self).history@ == Seq::<Operation>::empty(),
    {
        self.history.clear();
    }
}

} // verus!
