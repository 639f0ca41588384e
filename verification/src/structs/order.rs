use vstd::prelude::*;
use vstd::slice::{slice_index_get, slice_subrange};
use vstd::string::StringSliceAdditionalSpecFns;

verus! {

/// The byte a record separates its quantities with: `,`.
pub const COMMA: u8 = 44;

/// The optional sign byte a quantity may start with: `+`.
pub const PLUS: u8 = 43;

/// A customer's order: how much of each ingredient is still to be served.
/// A record reads `<ground coffee>,<hot water>,<cocoa>,<milk foam>`.
#[derive(Debug, PartialEq, Eq, Structural, Clone, Copy)]
pub struct Order {
    /// Identifier of the order.
    pub id: u32,
    /// Amount of ground coffee still required.
    pub ground_coffee: u32,
    /// Amount of hot water still required.
    pub hot_water: u32,
    /// Amount of cocoa still required.
    pub cocoa: u32,
    /// Amount of milk foam still required.
    pub milk_foam: u32,
}

/// An ASCII decimal digit.
pub open spec fn is_digit(b: u8) -> bool {
    48 <= b <= 57
}

/// Every byte of `s` is an ASCII decimal digit.
pub open spec fn all_digits(s: Seq<u8>) -> bool {
    forall|i: int| 0 <= i < s.len() ==> is_digit(#[trigger] s[i])
}

/// The number denoted by a sequence of decimal digits, most significant
/// first.
pub open spec fn digits_value(s: Seq<u8>) -> int
    decreases s.len(),
{
    if s.len() == 0 {
        0
    } else {
        digits_value(s.drop_last()) * 10 + s.last() - 48
    }
}

/// A quantity with its optional leading `+` sign stripped.
pub open spec fn numeric_body(f: Seq<u8>) -> Seq<u8> {
    if f.len() > 0 && f[0] == PLUS {
        f.drop_first()
    } else {
        f
    }
}

/// Whether a record field denotes a `u32` quantity: after the optional
/// sign, at least one byte, all of them digits, and a value in range.
pub open spec fn field_valid(f: Seq<u8>) -> bool {
    let b = numeric_body(f);
    b.len() > 0 && all_digits(b) && digits_value(b) <= u32::MAX
}

/// The quantity a valid record field denotes.
pub open spec fn field_value(f: Seq<u8>) -> u32 {
    digits_value(numeric_body(f)) as u32
}

/// The position of the first comma of `s` at or after `from`, or the length
/// of `s` if there is none.
pub open spec fn first_comma(s: Seq<u8>, from: int) -> int
    decreases s.len() - from when 0 <= from <= s.len()
{
    if from >= s.len() {
        s.len() as int
    } else if s[from] == COMMA {
        from
    } else {
        first_comma(s, from + 1)
    }
}

pub proof fn lemma_first_comma(s: Seq<u8>, from: int)
    requires
        0 <= from <= s.len(),
    ensures
        from <= first_comma(s, from) <= s.len(),
        first_comma(s, from) < s.len() ==> s[first_comma(s, from)] == COMMA,
    decreases s.len() - from,
{
    if from < s.len() && s[from] != COMMA {
        lemma_first_comma(s, from + 1);
    }
}

/// The fields of `s`, split at every comma.  There is always at least one
/// field; an empty record has one empty field.
pub open spec fn split_commas(s: Seq<u8>) -> Seq<Seq<u8>>
    decreases s.len(),
    via split_commas_decreases
{
    let c = first_comma(s, 0);
    if c == s.len() {
        seq![s]
    } else {
        seq![s.subrange(0, c)] + split_commas(s.subrange(c + 1, s.len() as int))
    }
}

#[via_fn]
proof fn split_commas_decreases(s: Seq<u8>) {
    lemma_first_comma(s, 0);
}

/// Whether a record line denotes an order: at least four comma-separated
/// fields, the first four of which are `u32` quantities.  Anything after
/// the fourth field is ignored.
pub open spec fn record_valid(s: Seq<u8>) -> bool {
    let fs = split_commas(s);
    &&& fs.len() >= 4
    &&& field_valid(fs[0])
    &&& field_valid(fs[1])
    &&& field_valid(fs[2])
    &&& field_valid(fs[3])
}

/// The four quantities a valid record denotes, in the order ground coffee,
/// hot water, cocoa, milk foam.
pub open spec fn record_values(s: Seq<u8>) -> (u32, u32, u32, u32) {
    let fs = split_commas(s);
    (field_value(fs[0]), field_value(fs[1]), field_value(fs[2]), field_value(fs[3]))
}

/// The message reported for an invalid record: the complaint about the
/// first field that is missing or malformed, in reading order.
pub open spec fn record_error(s: Seq<u8>) -> Seq<char> {
    let fs = split_commas(s);
    if !field_valid(fs[0]) {
        "Valor inválido de café molido."@
    } else if fs.len() < 2 {
        "Error, no se encontró agua caliente en el pedido."@
    } else if !field_valid(fs[1]) {
        "Valor inválido de agua caliente."@
    } else if fs.len() < 3 {
        "Error, no se encontró cacao en el pedido."@
    } else if !field_valid(fs[2]) {
        "Valor inválido de cacao."@
    } else if fs.len() < 4 {
        "Error, no se encontró espuma de leche en el pedido."@
    } else {
        "Valor inválido de espuma de leche."@
    }
}

/// Remaining quantities never grow: `post` is the same order as `pre` with
/// each requirement either untouched or closer to zero.
pub open spec fn order_progress(pre: Order, post: Order) -> bool {
    &&& post.id == pre.id
    &&& post.ground_coffee <= pre.ground_coffee
    &&& post.hot_water <= pre.hot_water
    &&& post.cocoa <= pre.cocoa
    &&& post.milk_foam <= pre.milk_foam
}

proof fn lemma_digits_value_nonneg(s: Seq<u8>)
    requires
        all_digits(s),
    ensures
        digits_value(s) >= 0,
    decreases s.len(),
{
    if s.len() > 0 {
        assert(forall|i: int| 0 <= i < s.drop_last().len() ==> s.drop_last()[i] == s[i]);
        lemma_digits_value_nonneg(s.drop_last());
    }
}

/// Extending a digit string to the right can only increase its value.
proof fn lemma_digits_value_mono(s: Seq<u8>, k: int)
    requires
        all_digits(s),
        0 <= k <= s.len(),
    ensures
        digits_value(s.subrange(0, k)) <= digits_value(s),
    decreases s.len() - k,
{
    if k < s.len() {
        let p = s.subrange(0, k);
        let q = s.subrange(0, k + 1);
        assert(q.drop_last() =~= p);
        assert(forall|i: int| 0 <= i < p.len() ==> p[i] == s[i]);
        lemma_digits_value_nonneg(p);
        assert(digits_value(q) == digits_value(p) * 10 + s[k] - 48);
        lemma_digits_value_mono(s, k + 1);
    } else {
        assert(s.subrange(0, k) =~= s);
    }
}

/// Split off the first comma-separated field of `b`: the bytes before the
/// first comma, and the bytes after it if there was one.
fn take_field<'a>(b: &'a [u8]) -> (r: (&'a [u8], Option<&'a [u8]>))
    ensures
        ({
            let c = first_comma(b@, 0);
            &&& r.0@ == b@.subrange(0, c)
            &&& match r.1 {
                Option::None => c == b@.len(),
                Option::Some(rest) => {
                    &&& c < b@.len()
                    &&& rest@ == b@.subrange(c + 1, b@.len() as int)
                },
            }
        }),
{
    let n = b.len();
    let mut i: usize = 0;
    while i < n
        invariant
            0 <= i <= n,
            n == b@.len(),
            first_comma(b@, 0) == first_comma(b@, i as int),
        decreases n - i,
    {
        if *slice_index_get(b, i) == COMMA {
            return (slice_subrange(b, 0, i), Option::Some(slice_subrange(b, i + 1, n)));
        }
        i = i + 1;
    }
    (slice_subrange(b, 0, n), Option::None)
}

/// Parse one record field as a `u32` quantity: an optional `+` sign, then
/// at least one decimal digit, denoting a value that fits.
fn parse_field(f: &[u8]) -> (r: Option<u32>)
    ensures
        field_valid(f@) ==> r == Option::Some(field_value(f@)),
        !field_valid(f@) ==> r is None,
{
    let n = f.len();
    let mut start: usize = 0;
    if n > 0 && *slice_index_get(f, 0) == PLUS {
        start = 1;
    }
    let ghost body = numeric_body(f@);
    proof {
        assert(body =~= f@.subrange(start as int, n as int));
    }
    if start >= n {
        return Option::None;
    }
    let mut i: usize = start;
    let mut acc: u32 = 0;
    while i < n
        invariant
            start <= i <= n,
            n == f@.len(),
            start < n,
            body == numeric_body(f@),
            body =~= f@.subrange(start as int, n as int),
            all_digits(body.subrange(0, i - start)),
            acc == digits_value(body.subrange(0, i - start)),
        decreases n - i,
    {
        let ch = *slice_index_get(f, i);
        proof {
            assert(body[i - start] == ch);
        }
        if ch < 48 || ch > 57 {
            proof {
                assert(!is_digit(body[i - start]));
            }
            return Option::None;
        }
        let d = (ch - 48) as u32;
        let wide: u64 = acc as u64 * 10 + d as u64;
        proof {
            let k = i - start;
            assert(body.subrange(0, k + 1).drop_last() =~= body.subrange(0, k));
            assert(body.subrange(0, k + 1).last() == ch);
            assert(digits_value(body.subrange(0, k + 1)) == acc * 10 + d);
        }
        if wide > 0xffff_ffffu64 {
            proof {
                if all_digits(body) {
                    lemma_digits_value_mono(body, i - start + 1);
                }
            }
            return Option::None;
        }
        acc = acc * 10 + d;
        i = i + 1;
    }
    proof {
        assert(body.subrange(0, n - start) =~= body);
    }
    Option::Some(acc)
}

impl Order {
    /// All four requirements have been served.
    pub open spec fn is_ready(self) -> bool {
        self.ground_coffee == 0 && self.hot_water == 0 && self.cocoa == 0 && self.milk_foam == 0
    }

    pub fn new(id: u32, ground_coffee: u32, hot_water: u32, cocoa: u32, milk_foam: u32) -> (r:
        Result<Order, String>)
        ensures
            r == Result::<Order, String>::Ok(
                Order { id, ground_coffee, hot_water, cocoa, milk_foam },
            ),
    {
        Result::Ok(Order { id, ground_coffee, hot_water, cocoa, milk_foam })
    }

    /// Turn one line of the order source into an order.  The line must hold
    /// at least four comma-separated `u32` quantities; the reported message
    /// names the first field found missing or malformed.
    pub fn from_file_record(line: &str, id: u32) -> (r: Result<Order, String>)
        ensures
            match r {
                Result::Ok(order) => {
                    &&& record_valid(line.spec_bytes())
                    &&& order.id == id
                    &&& order.ground_coffee == record_values(line.spec_bytes()).0
                    &&& order.hot_water == record_values(line.spec_bytes()).1
                    &&& order.cocoa == record_values(line.spec_bytes()).2
                    &&& order.milk_foam == record_values(line.spec_bytes()).3
                },
                Result::Err(message) => {
                    &&& !record_valid(line.spec_bytes())
                    &&& message@ == record_error(line.spec_bytes())
                },
            },
    {
        let bytes = line.as_bytes();
        let ghost fs = split_commas(bytes@);

        let (f0, rest0) = take_field(bytes);
        proof {
            lemma_first_comma(bytes@, 0);
            if first_comma(bytes@, 0) == bytes@.len() {
                assert(bytes@.subrange(0, bytes@.len() as int) =~= bytes@);
            }
            assert(fs[0] == f0@);
        }
        let ground_coffee = match parse_field(f0) {
            Option::Some(v) => v,
            Option::None => {
                return Result::Err("Valor inválido de café molido.".to_owned());
            },
        };
        let rest0 = match rest0 {
            Option::Some(r) => r,
            Option::None => {
                return Result::Err(
                    "Error, no se encontró agua caliente en el pedido.".to_owned(),
                );
            },
        };
        let ghost gs = split_commas(rest0@);
        proof {
            assert(fs =~= seq![f0@] + gs);
        }

        let (f1, rest1) = take_field(rest0);
        proof {
            lemma_first_comma(rest0@, 0);
            if first_comma(rest0@, 0) == rest0@.len() {
                assert(rest0@.subrange(0, rest0@.len() as int) =~= rest0@);
            }
            assert(fs[1] == f1@);
        }
        let hot_water = match parse_field(f1) {
            Option::Some(v) => v,
            Option::None => {
                return Result::Err("Valor inválido de agua caliente.".to_owned());
            },
        };
        let rest1 = match rest1 {
            Option::Some(r) => r,
            Option::None => {
                return Result::Err("Error, no se encontró cacao en el pedido.".to_owned());
            },
        };
        let ghost hs = split_commas(rest1@);
        proof {
            assert(gs =~= seq![f1@] + hs);
        }

        let (f2, rest2) = take_field(rest1);
        proof {
            lemma_first_comma(rest1@, 0);
            if first_comma(rest1@, 0) == rest1@.len() {
                assert(rest1@.subrange(0, rest1@.len() as int) =~= rest1@);
            }
            assert(fs[2] == f2@);
        }
        let cocoa = match parse_field(f2) {
            Option::Some(v) => v,
            Option::None => {
                return Result::Err("Valor inválido de cacao.".to_owned());
            },
        };
        let rest2 = match rest2 {
            Option::Some(r) => r,
            Option::None => {
                return Result::Err(
                    "Error, no se encontró espuma de leche en el pedido.".to_owned(),
                );
            },
        };
        let ghost is = split_commas(rest2@);
        proof {
            assert(hs =~= seq![f2@] + is);
        }

        let (f3, _rest3) = take_field(rest2);
        proof {
            lemma_first_comma(rest2@, 0);
            if first_comma(rest2@, 0) == rest2@.len() {
                assert(rest2@.subrange(0, rest2@.len() as int) =~= rest2@);
            }
            assert(fs[3] == f3@);
        }
        let milk_foam = match parse_field(f3) {
            Option::Some(v) => v,
            Option::None => {
                return Result::Err("Valor inválido de espuma de leche.".to_owned());
            },
        };
        Order::new(id, ground_coffee, hot_water, cocoa, milk_foam)
    }

    /// Whether the order already has all its ingredients and can be handed
    /// to the customer.
    pub fn check_if_ready(&self) -> (b: bool)
        ensures
            b == self.is_ready(),
    {
        self.ground_coffee == 0 && self.hot_water == 0 && self.cocoa == 0 && self.milk_foam == 0
    }
}

} // verus!
