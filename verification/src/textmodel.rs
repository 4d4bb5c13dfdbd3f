//! The text shape of a payment body: chunks joined by a separator, each
//! chunk a key and a value joined by `=`. Splitting is defined once here,
//! as a specification with executable counterparts, and the joining
//! direction is proved inverse to it.

use vstd::prelude::*;

verus! {

use crate::strutil::chars_to_string;

/// Splitting a character sequence on a separator. Splitting an empty
/// sequence yields one empty chunk, as splitting a text does.
pub open spec fn split_text(data: Seq<char>, sep: char) -> Seq<Seq<char>>
    decreases data.len(),
{
    if data.len() == 0 {
        seq![Seq::<char>::empty()]
    } else if data[0] == sep {
        seq![Seq::<char>::empty()] + split_text(data.drop_first(), sep)
    } else {
        let rest = split_text(data.drop_first(), sep);
        seq![seq![data[0]] + rest[0]] + rest.drop_first()
    }
}

/// Joining chunks with a separator between each two.
pub open spec fn join_text(items: Seq<Seq<char>>, sep: char) -> Seq<char>
    decreases items.len(),
{
    if items.len() == 0 {
        Seq::empty()
    } else if items.len() == 1 {
        items[0]
    } else {
        items[0] + seq![sep] + join_text(items.drop_first(), sep)
    }
}

/// Splitting a chunk at its first `=` into a key and a value; a chunk
/// without `=` is malformed.
pub open spec fn chunk_kv(chunk: Seq<char>) -> Option<(Seq<char>, Seq<char>)>
    decreases chunk.len(),
{
    if chunk.len() == 0 {
        None
    } else if chunk[0] == '=' {
        Some((Seq::<char>::empty(), chunk.drop_first()))
    } else {
        match chunk_kv(chunk.drop_first()) {
            None => None,
            Some(kv) => Some((seq![chunk[0]] + kv.0, kv.1)),
        }
    }
}

/// A split always yields at least one chunk.
pub proof fn lemma_split_len(data: Seq<char>, sep: char)
    ensures
        split_text(data, sep).len() >= 1,
    decreases data.len(),
{
    if data.len() != 0 {
        lemma_split_len(data.drop_first(), sep)
    }
}

/// A sequence free of the separator splits into itself alone.
pub proof fn lemma_split_sep_free(data: Seq<char>, sep: char)
    requires
        !data.contains(sep),
    ensures
        split_text(data, sep) == seq![data],
    decreases data.len(),
{
    if data.len() == 0 {
        assert(split_text(data, sep) =~~= seq![data]);
    } else {
        assert(data[0] != sep);
        assert(!data.drop_first().contains(sep)) by {
            if data.drop_first().contains(sep) {
                let i = choose|i: int|
                    0 <= i < data.drop_first().len() && data.drop_first()[i] == sep;
                assert(data[i + 1] == sep);
            }
        }
        lemma_split_sep_free(data.drop_first(), sep);
        let rest = split_text(data.drop_first(), sep);
        assert(rest == seq![data.drop_first()]);
        assert(rest.drop_first() =~= Seq::<Seq<char>>::empty());
        assert(seq![data[0]] + rest[0] =~= data);
        assert(seq![seq![data[0]] + rest[0]] + rest.drop_first() =~= seq![data]);
    }
}

/// Splitting a separator-free prefix, the separator, and a remainder
/// yields the prefix as the first chunk, then the chunks of the remainder.
pub proof fn lemma_split_prefix(head: Seq<char>, rest: Seq<char>, sep: char)
    requires
        !head.contains(sep),
    ensures
        split_text(head + seq![sep] + rest, sep) == seq![head] + split_text(rest, sep),
    decreases head.len(),
{
    let data = head + seq![sep] + rest;
    if head.len() == 0 {
        assert(data[0] == sep);
        assert(data.drop_first() =~= rest);
        assert(split_text(data, sep) =~~= seq![head] + split_text(rest, sep));
    } else {
        assert(data[0] == head[0]);
        assert(data[0] != sep);
        assert(!head.drop_first().contains(sep)) by {
            if head.drop_first().contains(sep) {
                let i = choose|i: int|
                    0 <= i < head.drop_first().len() && head.drop_first()[i] == sep;
                assert(head[i + 1] == sep);
            }
        }
        assert(data.drop_first() =~= head.drop_first() + seq![sep] + rest);
        lemma_split_prefix(head.drop_first(), rest, sep);
        lemma_split_len(rest, sep);
        let r = split_text(data.drop_first(), sep);
        assert(r[0] == head.drop_first());
        assert(seq![data[0]] + r[0] =~= head);
        assert(r.drop_first() =~= split_text(rest, sep));
        assert(seq![seq![data[0]] + r[0]] + r.drop_first() =~= seq![head] + split_text(rest, sep));
    }
}

/// Splitting is the inverse of joining, as long as no chunk holds the
/// separator itself.
pub proof fn lemma_split_join(items: Seq<Seq<char>>, sep: char)
    requires
        items.len() >= 1,
        forall|i: int| 0 <= i < items.len() ==> !(#[trigger] items[i]).contains(sep),
    ensures
        split_text(join_text(items, sep), sep) == items,
    decreases items.len(),
{
    if items.len() == 1 {
        lemma_split_sep_free(items[0], sep);
        assert(split_text(join_text(items, sep), sep) =~= items);
    } else {
        let tail = items.drop_first();
        assert(join_text(items, sep) == items[0] + seq![sep] + join_text(tail, sep));
        assert(forall|i: int| 0 <= i < tail.len() ==> !(#[trigger] tail[i]).contains(sep));
        lemma_split_join(tail, sep);
        lemma_split_prefix(items[0], join_text(tail, sep), sep);
        assert(seq![items[0]] + tail =~= items);
    }
}

/// Joining one more chunk appends a separator and the chunk, except to an
/// empty joining.
pub proof fn lemma_join_snoc(items: Seq<Seq<char>>, x: Seq<char>, sep: char)
    ensures
        join_text(items.push(x), sep) == if items.len() == 0 {
            x
        } else {
            join_text(items, sep) + seq![sep] + x
        },
    decreases items.len(),
{
    let p = items.push(x);
    if items.len() == 0 {
        assert(p[0] == x);
    } else {
        assert(p[0] == items[0]);
        assert(p.drop_first() =~= items.drop_first().push(x));
        lemma_join_snoc(items.drop_first(), x, sep);
        if items.len() == 1 {
            assert(join_text(items, sep) == items[0]);
            assert(join_text(p, sep) =~= join_text(items, sep) + seq![sep] + x);
        } else {
            assert(join_text(items, sep) == items[0] + seq![sep] + join_text(
                items.drop_first(),
                sep,
            ));
            assert(join_text(p, sep) =~= join_text(items, sep) + seq![sep] + x);
        }
    }
}

/// A chunk of the shape `key=value`, with no `=` inside the key, splits
/// back into exactly that key and value.
pub proof fn lemma_chunk_kv_of_pair(key: Seq<char>, value: Seq<char>)
    requires
        !key.contains('='),
    ensures
        chunk_kv(key + seq!['='] + value) == Some((key, value)),
    decreases key.len(),
{
    let chunk = key + seq!['='] + value;
    if key.len() == 0 {
        assert(chunk[0] == '=');
        assert(chunk.drop_first() =~= value);
        assert(chunk_kv(chunk) == Some((Seq::<char>::empty(), value)));
        assert(key =~= Seq::<char>::empty());
    } else {
        assert(chunk[0] == key[0]);
        assert(chunk[0] != '=');
        assert(!key.drop_first().contains('=')) by {
            if key.drop_first().contains('=') {
                let i = choose|i: int|
                    0 <= i < key.drop_first().len() && key.drop_first()[i] == '=';
                assert(key[i + 1] == '=');
            }
        }
        assert(chunk.drop_first() =~= key.drop_first() + seq!['='] + value);
        lemma_chunk_kv_of_pair(key.drop_first(), value);
        assert(seq![chunk[0]] + key.drop_first() =~= key);
    }
}

/// The position of the first `=` determines what `chunk_kv` yields.
proof fn lemma_chunk_kv_at(chunk: Seq<char>, i: int)
    requires
        0 <= i < chunk.len(),
        chunk[i] == '=',
        forall|j: int| 0 <= j < i ==> chunk[j] != '=',
    ensures
        chunk_kv(chunk) == Some((chunk.take(i), chunk.skip(i + 1))),
    decreases chunk.len(),
{
    if i == 0 {
        assert(chunk.take(0) =~= Seq::<char>::empty());
        assert(chunk.skip(1) =~= chunk.drop_first());
    } else {
        assert(chunk[0] != '=');
        let tail = chunk.drop_first();
        assert(tail[i - 1] == '=');
        assert(forall|j: int| 0 <= j < i - 1 ==> tail[j] != '=');
        lemma_chunk_kv_at(tail, i - 1);
        assert(seq![chunk[0]] + tail.take(i - 1) =~= chunk.take(i));
        assert(tail.skip(i) =~= chunk.skip(i + 1));
    }
}

/// A chunk with no `=` at all is malformed.
proof fn lemma_chunk_kv_none(chunk: Seq<char>)
    requires
        !chunk.contains('='),
    ensures
        chunk_kv(chunk) is None,
    decreases chunk.len(),
{
    if chunk.len() != 0 {
        assert(chunk[0] != '=');
        assert(!chunk.drop_first().contains('=')) by {
            if chunk.drop_first().contains('=') {
                let i = choose|i: int|
                    0 <= i < chunk.drop_first().len() && chunk.drop_first()[i] == '=';
                assert(chunk[i + 1] == '=');
            }
        }
        lemma_chunk_kv_none(chunk.drop_first());
    }
}

/// Splits a character vector on the separator.
pub fn split_chars(data: &[char], sep: char) -> (r: Vec<Vec<char>>)
    ensures
        r.deep_view() == split_text(data@, sep),
{
    let mut out: Vec<Vec<char>> = Vec::new();
    let mut cur: Vec<char> = Vec::new();
    let mut i: usize = 0;
    proof {
        assert(data@.skip(0) =~= data@);
    }
    while i < data.len()
        invariant
            0 <= i <= data@.len(),
            split_text(data@, sep) == out.deep_view() + seq![cur@ + split_text(
                data@.skip(i as int),
                sep,
            )[0]] + split_text(data@.skip(i as int), sep).drop_first(),
        decreases data@.len() - i,
    {
        let ghost rest = data@.skip(i as int);
        let ghost rest1 = data@.skip(i as int + 1);
        proof {
            assert(rest.len() > 0);
            assert(rest[0] == data@[i as int]);
            assert(rest.drop_first() =~= rest1);
            lemma_split_len(rest1, sep);
        }
        let c = data[i];
        if c == sep {
            proof {
                assert(split_text(rest, sep) =~= seq![Seq::<char>::empty()] + split_text(
                    rest1,
                    sep,
                ));
            }
            let ghost old_out = out.deep_view();
            let ghost old_cur = cur@;
            out.push(cur);
            cur = Vec::new();
            proof {
                assert(out.deep_view() =~~= old_out.push(old_cur));
                assert(old_cur + split_text(rest, sep)[0] =~= old_cur);
                assert(split_text(data@, sep) =~= out.deep_view() + seq![cur@ + split_text(
                    rest1,
                    sep,
                )[0]] + split_text(rest1, sep).drop_first());
            }
        } else {
            proof {
                let r1 = split_text(rest1, sep);
                assert(split_text(rest, sep) =~= seq![seq![rest[0]] + r1[0]] + r1.drop_first());
            }
            let ghost old_cur = cur@;
            cur.push(c);
            proof {
                let r1 = split_text(rest1, sep);
                assert(old_cur + split_text(rest, sep)[0] =~= cur@ + r1[0]);
                assert(split_text(rest, sep).drop_first() =~= r1.drop_first());
                assert(split_text(data@, sep) =~= out.deep_view() + seq![cur@ + r1[0]]
                    + r1.drop_first());
            }
        }
        i += 1;
    }
    proof {
        assert(data@.skip(data@.len() as int) =~= Seq::<char>::empty());
        assert(split_text(data@.skip(data@.len() as int), sep) =~= seq![Seq::<char>::empty()]);
    }
    let ghost old_out = out.deep_view();
    let ghost old_cur = cur@;
    out.push(cur);
    proof {
        assert(out.deep_view() =~~= old_out.push(old_cur));
        assert(old_cur + Seq::<char>::empty() =~= old_cur);
        assert(split_text(data@, sep) =~= out.deep_view());
    }
    out
}

/// Splits one chunk at its first `=` into a key string and a value
/// string; yields nothing when the chunk has no `=`.
pub fn split_chunk_kv(chunk: &Vec<char>) -> (r: Option<(String, String)>)
    ensures
        match r {
            Some(kv) => chunk_kv(chunk@) == Some((kv.0@, kv.1@)),
            None => chunk_kv(chunk@) is None,
        },
{
    let mut i: usize = 0;
    while i < chunk.len()
        invariant
            0 <= i <= chunk@.len(),
            forall|j: int| 0 <= j < i ==> chunk@[j] != '=',
        decreases chunk@.len() - i,
    {
        if chunk[i] == '=' {
            proof {
                lemma_chunk_kv_at(chunk@, i as int);
            }
            let mut key: Vec<char> = Vec::new();
            let mut j: usize = 0;
            while j < i
                invariant
                    0 <= j <= i <= chunk@.len(),
                    key@ == chunk@.take(i as int).take(j as int),
                decreases i - j,
            {
                key.push(chunk[j]);
                j += 1;
                proof {
                    assert(chunk@.take(i as int).take(j as int) =~= chunk@.take(i as int).take(
                        j - 1,
                    ).push(chunk@[j - 1]));
                }
            }
            proof {
                assert(chunk@.take(i as int).take(i as int) =~= chunk@.take(i as int));
            }
            let mut value: Vec<char> = Vec::new();
            let mut j: usize = i + 1;
            while j < chunk.len()
                invariant
                    i + 1 <= j <= chunk@.len(),
                    value@ == chunk@.skip(i as int + 1).take(j - i - 1),
                decreases chunk@.len() - j,
            {
                value.push(chunk[j]);
                j += 1;
                proof {
                    assert(chunk@.skip(i as int + 1).take(j - i - 1) =~= chunk@.skip(
                        i as int + 1,
                    ).take(j - i - 2).push(chunk@[j - 1]));
                }
            }
            proof {
                assert(chunk@.skip(i as int + 1).take(chunk@.len() - i - 1) =~= chunk@.skip(
                    i as int + 1,
                ));
            }
            return Some((chars_to_string(key.as_slice()), chars_to_string(value.as_slice())));
        }
        i += 1;
    }
    proof {
        assert(!chunk@.contains('=')) by {
            if chunk@.contains('=') {
                let k = choose|k: int| 0 <= k < chunk@.len() && chunk@[k] == '=';
            }
        }
        lemma_chunk_kv_none(chunk@);
    }
    None
}

} // verus!
