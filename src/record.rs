//! Fixed-layout records and their textual dump.
use vstd::prelude::*;
use crate::text::push_char;

verus! {

/// A user as laid out across the boundary.
#[derive(Clone, Copy, Debug)]
pub struct User {
    pub id: i64,
    pub age: i64,
}

/// A grade record. The two trailing fields are addresses of data that the
/// record borrows and never reads through; zero stands for a null pointer.
#[derive(Clone, Copy, Debug)]
pub struct Grade {
    pub id: i64,
    pub class_ids: [i64; 3],
    pub user: User,
    pub class_ids_ptr: usize,
    pub user_ptr: usize,
}

/// The digit for `d` in bases up to sixteen, lower case.
pub open spec fn digit_char(d: nat) -> char {
    if d < 16 {
        seq!['0', '1', '2', '3', '4', '5', '6', '7', '8', '9', 'a', 'b', 'c', 'd', 'e', 'f'][d as int]
    } else {
        '?'
    }
}

/// Decimal digits of `n`, most significant first, without leading zeros.
pub open spec fn decimal(n: nat) -> Seq<char>
    decreases n,
{
    if n < 10 {
        seq![digit_char(n)]
    } else {
        decimal(n / 10).push(digit_char(n % 10))
    }
}

/// Lower-case hexadecimal digits of `n`, most significant first.
pub open spec fn hex(n: nat) -> Seq<char>
    decreases n,
{
    if n < 16 {
        seq![digit_char(n)]
    } else {
        hex(n / 16).push(digit_char(n % 16))
    }
}

/// A signed integer in decimal, with a leading minus when negative.
pub open spec fn int_text(i: int) -> Seq<char> {
    if i < 0 {
        seq!['-'] + decimal((-i) as nat)
    } else {
        decimal(i as nat)
    }
}

/// An address as a pointer is shown: `0x` and lower-case hexadecimal.
pub open spec fn address_text(a: nat) -> Seq<char> {
    "0x"@ + hex(a)
}

/// The dump of a user, every field by name.
pub open spec fn user_text(u: User) -> Seq<char> {
    "User { id: "@ + int_text(u.id as int) + ", age: "@ + int_text(u.age as int) + " }"@
}

/// The dump of a grade: every scalar field, the embedded user, and the two
/// borrowed addresses as values.
pub open spec fn grade_text(g: Grade) -> Seq<char> {
    "Grade { id: "@ + int_text(g.id as int) + ", class_ids: ["@ + int_text(g.class_ids@[0] as int)
        + ", "@ + int_text(g.class_ids@[1] as int) + ", "@ + int_text(g.class_ids@[2] as int)
        + "], user: "@ + user_text(g.user) + ", class_ids_ptr: "@ + address_text(
        g.class_ids_ptr as nat,
    ) + ", user_ptr: "@ + address_text(g.user_ptr as nat) + " }"@
}

fn digit(d: u64) -> (c: char)
    requires
        d < 16,
    ensures
        c == digit_char(d as nat),
{
    let table: [char; 16] = ['0', '1', '2', '3', '4', '5', '6', '7', '8', '9', 'a', 'b', 'c', 'd', 'e', 'f'];
    assert(table@ =~= seq!['0', '1', '2', '3', '4', '5', '6', '7', '8', '9', 'a', 'b', 'c', 'd', 'e', 'f']);
    table[d as usize]
}

fn push_decimal(out: &mut String, n: u64)
    ensures
        final(out)@ == old(out)@ + decimal(n as nat),
    decreases n,
{
    if n >= 10 {
        push_decimal(out, n / 10);
    }
    push_char(out, digit(n % 10));
    assert(final(out)@ =~= old(out)@ + decimal(n as nat));
}

fn push_hex(out: &mut String, n: u64)
    ensures
        final(out)@ == old(out)@ + hex(n as nat),
    decreases n,
{
    if n >= 16 {
        push_hex(out, n / 16);
    }
    push_char(out, digit(n % 16));
    assert(final(out)@ =~= old(out)@ + hex(n as nat));
}

fn push_int(out: &mut String, i: i64)
    ensures
        final(out)@ == old(out)@ + int_text(i as int),
{
    if i < 0 {
        push_char(out, '-');
        push_decimal(out, (0 - (i as i128)) as u64);
    } else {
        push_decimal(out, i as u64);
    }
    assert(final(out)@ =~= old(out)@ + int_text(i as int));
}

fn push_address(out: &mut String, a: usize)
    ensures
        final(out)@ == old(out)@ + address_text(a as nat),
{
    out.append("0x");
    push_hex(out, a as u64);
    assert(final(out)@ =~= old(out)@ + address_text(a as nat));
}

fn push_user(out: &mut String, u: &User)
    ensures
        final(out)@ == old(out)@ + user_text(*u),
{
    out.append("User { id: ");
    push_int(out, u.id);
    out.append(", age: ");
    push_int(out, u.age);
    out.append(" }");
    assert(final(out)@ =~= old(out)@ + user_text(*u));
}

/// The textual dump of a grade. The two borrowed addresses are shown as
/// values and never read through.
pub fn grade_print(grade: Grade) -> (r: String)
    ensures
        r@ == grade_text(grade),
{
    let mut r = String::new();
    r.append("Grade { id: ");
    push_int(&mut r, grade.id);
    r.append(", class_ids: [");
    push_int(&mut r, grade.class_ids[0]);
    r.append(", ");
    push_int(&mut r, grade.class_ids[1]);
    r.append(", ");
    push_int(&mut r, grade.class_ids[2]);
    r.append("], user: ");
    push_user(&mut r, &grade.user);
    r.append(", class_ids_ptr: ");
    push_address(&mut r, grade.class_ids_ptr);
    r.append(", user_ptr: ");
    push_address(&mut r, grade.user_ptr);
    r.append(" }");
    assert(r@ =~= grade_text(grade));
    r
}

} // verus!
