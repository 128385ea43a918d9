use vstd::prelude::*;

verus! {

/// The value a result row holds under one key, as far as decoding reads it.
/// A number is kept as the bit pattern of its IEEE-754 double.
#[derive(Debug, Clone, PartialEq, Eq)]
pub enum FieldValue {
    Number(u64),
    Text(String),
    /// Null, a boolean, an array or a nested object.
    Other,
}

/// A row returned by the store: its keys and values, in the row's order.
#[derive(Debug, Clone)]
pub struct Row {
    pub fields: Vec<(String, FieldValue)>,
}

/// The value under `key`: the first field whose key it is.
pub open spec fn lookup(fields: Seq<(String, FieldValue)>, key: Seq<char>) -> Option<FieldValue>
    decreases fields.len(),
{
    if fields.len() == 0 {
        None
    } else if fields[0].0@ == key {
        Some(fields[0].1)
    } else {
        lookup(fields.drop_first(), key)
    }
}

/// The number under `key` as the bits of a double; `0` (the bits of `0.0`) where
/// the row has no such key or holds something else than a number there.
pub open spec fn score_of(row: Row, key: Seq<char>) -> u64 {
    match lookup(row.fields@, key) {
        Some(FieldValue::Number(bits)) => bits,
        _ => 0,
    }
}

/// The string under `key`, if the row holds one there.
pub open spec fn text_of(row: Row, key: Seq<char>) -> Option<Seq<char>> {
    match lookup(row.fields@, key) {
        Some(FieldValue::Text(s)) => Some(s@),
        _ => None,
    }
}

proof fn lemma_lookup_skip(fields: Seq<(String, FieldValue)>, key: Seq<char>, i: int)
    requires
        0 <= i < fields.len(),
        fields[i].0@ != key,
    ensures
        lookup(fields.skip(i), key) == lookup(fields.skip(i + 1), key),
{
    assert(fields.skip(i).drop_first() =~= fields.skip(i + 1));
}

impl Row {
    /// Index of the first field under `key`, if any.
    fn position(&self, key: &String) -> (r: Option<usize>)
        ensures
            match r {
                Some(i) => i < self.fields@.len() && lookup(self.fields@, key@) == Some(
                    self.fields@[i as int].1,
                ),
                None => lookup(self.fields@, key@).is_none(),
            },
    {
        let mut i: usize = 0;
        proof {
            assert(self.fields@.skip(0) =~= self.fields@);
        }
        while i < self.fields.len()
            invariant
                i <= self.fields@.len(),
                lookup(self.fields@, key@) == lookup(self.fields@.skip(i as int), key@),
            decreases self.fields@.len() - i,
        {
            if self.fields[i].0.eq(key) {
                return Some(i);
            }
            proof {
                lemma_lookup_skip(self.fields@, key@, i as int);
            }
            i = i + 1;
        }
        None
    }

    /// The number under `key` as the bits of a double, `0` when absent or not a number.
    pub fn score_field(&self, key: &String) -> (r: u64)
        ensures
            r == score_of(*self, key@),
    {
        match self.position(key) {
            Some(i) => match &self.fields[i].1 {
                FieldValue::Number(bits) => *bits,
                _ => 0,
            },
            None => 0,
        }
    }

    /// The string under `key`, if the row holds one there.
    pub fn text_field(&self, key: &String) -> (r: Option<String>)
        ensures
            match r {
                Some(s) => text_of(*self, key@) == Some(s@),
                None => text_of(*self, key@).is_none(),
            },
    {
        match self.position(key) {
            Some(i) => match &self.fields[i].1 {
                FieldValue::Text(s) => Some(s.clone()),
                _ => None,
            },
            None => None,
        }
    }
}

pub open spec fn digit_char(d: nat) -> char {
    if d == 0 { '0' }
    else if d == 1 { '1' }
    else if d == 2 { '2' }
    else if d == 3 { '3' }
    else if d == 4 { '4' }
    else if d == 5 { '5' }
    else if d == 6 { '6' }
    else if d == 7 { '7' }
    else if d == 8 { '8' }
    else { '9' }
}

/// The decimal digits of `n`, without leading zeros.
pub open spec fn decimal(n: nat) -> Seq<char>
    decreases n,
{
    if n < 10 {
        seq![digit_char(n)]
    } else {
        decimal(n / 10) + seq![digit_char(n % 10)]
    }
}

fn digit_str(d: usize) -> (r: &'static str)
    requires
        d < 10,
    ensures
        r@ == seq![digit_char(d as nat)],
{
    if d == 0 {
        proof { reveal_strlit("0"); }
        "0"
    } else if d == 1 {
        proof { reveal_strlit("1"); }
        "1"
    } else if d == 2 {
        proof { reveal_strlit("2"); }
        "2"
    } else if d == 3 {
        proof { reveal_strlit("3"); }
        "3"
    } else if d == 4 {
        proof { reveal_strlit("4"); }
        "4"
    } else if d == 5 {
        proof { reveal_strlit("5"); }
        "5"
    } else if d == 6 {
        proof { reveal_strlit("6"); }
        "6"
    } else if d == 7 {
        proof { reveal_strlit("7"); }
        "7"
    } else if d == 8 {
        proof { reveal_strlit("8"); }
        "8"
    } else {
        proof { reveal_strlit("9"); }
        "9"
    }
}

/// Appends the decimal digits of `n` to `s`.
pub fn push_decimal(s: &mut String, n: usize)
    ensures
        final(s)@ == old(s)@ + decimal(n as nat),
    decreases n,
{
    if n < 10 {
        s.append(digit_str(n));
    } else {
        push_decimal(s, n / 10);
        s.append(digit_str(n % 10));
        proof {
            assert(final(s)@ =~= old(s)@ + decimal(n as nat));
        }
    }
}

} // verus!
