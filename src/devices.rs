//! The device's list of physical channels, as the driver writes it: lines
//! of names separated by `", "`.

use vstd::prelude::*;
use vstd::string::StringSliceAdditionalSpecFns;
use vstd::utf8::{decode_utf8, valid_utf8};
use crate::error::DaqmxError;
use crate::text::decode_text;

verus! {

/// A line's last item: without the `'\r'` of a `"\r\n"` line end.
pub open spec fn strip_cr(cur: Seq<u8>) -> Seq<u8> {
    if cur.len() > 0 && cur.last() == 13u8 {
        cur.drop_last()
    } else {
        cur
    }
}

/// Splits `s` into lines (at `'\n'`, a final line end being optional) and
/// each line into items at `", "`, continuing an item that began with
/// `cur`. `fresh` says that nothing of the current line has been read yet:
/// the text, or the part after a line end, then yields no item when empty.
pub open spec fn split_from(s: Seq<u8>, cur: Seq<u8>, fresh: bool) -> Seq<Seq<u8>>
    decreases s.len(),
{
    if s.len() == 0 {
        if fresh {
            Seq::empty()
        } else {
            seq![cur]
        }
    } else if s[0] == 10u8 {
        seq![strip_cr(cur)] + split_from(s.skip(1), Seq::empty(), true)
    } else if s.len() >= 2 && s[0] == 44u8 && s[1] == 32u8 {
        seq![cur] + split_from(s.skip(2), Seq::empty(), false)
    } else {
        split_from(s.skip(1), cur.push(s[0]), false)
    }
}

/// The items of a channel list.
pub open spec fn channel_items(s: Seq<u8>) -> Seq<Seq<u8>> {
    split_from(s, Seq::empty(), true)
}

/// `s` with every occurrence of `pat` removed, scanning from the front.
pub open spec fn without(s: Seq<u8>, pat: Seq<u8>) -> Seq<u8>
    decreases s.len(),
{
    if s.len() == 0 {
        s
    } else if 0 < pat.len() <= s.len() && s.take(pat.len() as int) == pat {
        without(s.skip(pat.len() as int), pat)
    } else {
        seq![s[0]] + without(s.skip(1), pat)
    }
}

/// The names in a channel list, without `"<device>/"` when `trim` is set.
pub open spec fn channel_name_bytes(text: Seq<u8>, device: Seq<u8>, trim: bool) -> Seq<Seq<u8>> {
    let items = channel_items(text);
    if trim {
        items.map_values(|item: Seq<u8>| without(item, device.push(47u8)))
    } else {
        items
    }
}

/// Whether `pat` occurs in `s` at position `i`.
fn occurs_at(s: &[u8], i: usize, pat: &[u8]) -> (r: bool)
    requires
        i <= s@.len(),
    ensures
        r == (pat@.len() <= s@.len() - i && s@.subrange(i as int, i + pat@.len()) == pat@),
{
    let n = s.len();
    if pat.len() > n - i {
        return false;
    }
    let mut k: usize = 0;
    while k < pat.len()
        invariant
            n == s@.len(),
            i <= s@.len(),
            pat@.len() <= s@.len() - i,
            0 <= k <= pat@.len(),
            forall|j: int| 0 <= j < k ==> s@[i + j] == pat@[j],
        decreases pat@.len() - k,
    {
        if s[i + k] != pat[k] {
            assert(s@.subrange(i as int, i + pat@.len())[k as int] != pat@[k as int]);
            return false;
        }
        k = k + 1;
    }
    assert(s@.subrange(i as int, i + pat@.len()) =~= pat@);
    true
}

/// `item` with every occurrence of `pat` removed.
pub fn remove_all(item: &[u8], pat: &[u8]) -> (r: Vec<u8>)
    ensures
        r@ == without(item@, pat@),
{
    let mut out: Vec<u8> = Vec::new();
    let mut i: usize = 0;
    assert(item@.skip(0) =~= item@);
    assert(out@ + without(item@, pat@) =~= without(item@, pat@));
    while i < item.len()
        invariant
            0 <= i <= item@.len(),
            out@ + without(item@.skip(i as int), pat@) == without(item@, pat@),
        decreases item@.len() - i,
    {
        let rest = Ghost(item@.skip(i as int));
        if pat.len() > 0 && occurs_at(item, i, pat) {
            assert(rest@.take(pat@.len() as int) =~= item@.subrange(i as int, i + pat@.len()));
            assert(rest@.skip(pat@.len() as int) =~= item@.skip(i + pat@.len()));
            i = i + pat.len();
        } else {
            assert(!(0 < pat@.len() <= rest@.len() && rest@.take(pat@.len() as int) == pat@)) by {
                if 0 < pat@.len() <= rest@.len() {
                    assert(rest@.take(pat@.len() as int) =~= item@.subrange(i as int, i + pat@.len()));
                }
            }
            assert(rest@.skip(1) =~= item@.skip(i + 1));
            assert(seq![item@[i as int]] + without(rest@.skip(1), pat@) == without(rest@, pat@));
            out.push(item[i]);
            assert((out@ + without(item@.skip(i + 1), pat@)) =~= (out@.drop_last() + (seq![item@[i as int]]
                + without(item@.skip(i + 1), pat@))));
            i = i + 1;
        }
    }
    assert(item@.skip(i as int) =~= Seq::<u8>::empty());
    assert(out@ + without(Seq::<u8>::empty(), pat@) =~= out@);
    out
}

/// Splits a channel list into its items (as bytes): lines, split at `", "`.
pub fn split_channel_list(text: &[u8]) -> (r: Vec<Vec<u8>>)
    ensures
        r@.len() == channel_items(text@).len(),
        forall|k: int| 0 <= k < r@.len() ==> #[trigger] r@[k]@ == channel_items(text@)[k],
{
    let mut items: Vec<Vec<u8>> = Vec::new();
    let mut cur: Vec<u8> = Vec::new();
    let mut fresh: bool = true;
    let ghost mut acc: Seq<Seq<u8>> = Seq::empty();
    let mut i: usize = 0;
    assert(text@.skip(0) =~= text@);
    assert(acc + split_from(text@, cur@, fresh) =~= channel_items(text@));
    while i < text.len()
        invariant
            0 <= i <= text@.len(),
            items@.len() == acc.len(),
            forall|k: int| 0 <= k < acc.len() ==> #[trigger] items@[k]@ == acc[k],
            acc + split_from(text@.skip(i as int), cur@, fresh) == channel_items(text@),
        decreases text@.len() - i,
    {
        let ghost rest = text@.skip(i as int);
        let b = text[i];
        assert(rest.len() > 0 && rest[0] == b);
        if b == 10 {
            let mut item = cur;
            if item.len() > 0 && item[item.len() - 1] == 13 {
                item.pop();
            }
            proof {
                assert(item@ =~= strip_cr(cur@));
                assert(rest.skip(1) =~= text@.skip(i + 1));
                assert(acc + split_from(rest, cur@, fresh) =~= acc.push(item@) + split_from(
                    text@.skip(i + 1),
                    Seq::empty(),
                    true,
                ));
                acc = acc.push(item@);
            }
            items.push(item);
            cur = Vec::new();
            fresh = true;
            i = i + 1;
        } else if b == 44 && i + 1 < text.len() && text[i + 1] == 32 {
            proof {
                assert(rest.len() >= 2 && rest[1] == text@[i + 1]);
                assert(rest.skip(2) =~= text@.skip(i + 2));
                assert(acc + split_from(rest, cur@, fresh) =~= acc.push(cur@) + split_from(
                    text@.skip(i + 2),
                    Seq::empty(),
                    false,
                ));
                acc = acc.push(cur@);
            }
            items.push(cur);
            cur = Vec::new();
            fresh = false;
            i = i + 2;
        } else {
            proof {
                if rest.len() >= 2 {
                    assert(rest[1] == text@[i + 1]);
                }
                assert(rest.skip(1) =~= text@.skip(i + 1));
                assert(split_from(rest, cur@, fresh) == split_from(rest.skip(1), cur@.push(b), false));
            }
            cur.push(b);
            fresh = false;
            i = i + 1;
        }
    }
    assert(text@.skip(i as int) =~= Seq::<u8>::empty());
    if !fresh {
        proof {
            assert(acc + split_from(text@.skip(i as int), cur@, fresh) =~= acc.push(cur@));
            acc = acc.push(cur@);
        }
        items.push(cur);
    } else {
        assert(acc + split_from(text@.skip(i as int), cur@, fresh) =~= acc);
    }
    items
}

/// The names of the physical channels in the driver's list `text`. With
/// `trim_device_name`, every `"<device>/"` is removed from each name.
///
/// The text is split into lines, and each line into names at `", "`; an
/// empty name between two separators is kept.
pub fn channel_names(text: &str, device: &str, trim_device_name: bool) -> (r: Result<Vec<String>, DaqmxError>)
    ensures
        ({
            let names = channel_name_bytes(text.spec_bytes(), device.spec_bytes(), trim_device_name);
            &&& r is Ok <==> (forall|k: int| 0 <= k < names.len() ==> valid_utf8(#[trigger] names[k]))
            &&& r matches Ok(v) ==> v@.len() == names.len() && forall|k: int|
                0 <= k < names.len() ==> (#[trigger] v@[k])@ == decode_utf8(names[k])
            &&& r matches Err(e) ==> e == DaqmxError::Utf8Error
        }),
{
    let items = split_channel_list(text.as_bytes());
    let ghost names = channel_name_bytes(text.spec_bytes(), device.spec_bytes(), trim_device_name);
    let mut prefix: Vec<u8> = Vec::new();
    let device_bytes = device.as_bytes();
    let mut j: usize = 0;
    while j < device_bytes.len()
        invariant
            0 <= j <= device_bytes@.len(),
            prefix@ == device_bytes@.take(j as int),
        decreases device_bytes@.len() - j,
    {
        prefix.push(device_bytes[j]);
        j = j + 1;
        assert(prefix@ =~= device_bytes@.take(j as int));
    }
    prefix.push(47);
    assert(prefix@ =~= device.spec_bytes().push(47u8));
    let mut out: Vec<String> = Vec::new();
    let mut k: usize = 0;
    while k < items.len()
        invariant
            0 <= k <= items@.len(),
            items@.len() == names.len(),
            prefix@ == device.spec_bytes().push(47u8),
            names == channel_name_bytes(text.spec_bytes(), device.spec_bytes(), trim_device_name),
            forall|m: int| 0 <= m < items@.len() ==> #[trigger] items@[m]@ == channel_items(text.spec_bytes())[m],
            out@.len() == k,
            forall|m: int| 0 <= m < k ==> valid_utf8(#[trigger] names[m]),
            forall|m: int| 0 <= m < k ==> (#[trigger] out@[m])@ == decode_utf8(names[m]),
        decreases items@.len() - k,
    {
        let bytes: Vec<u8> = if trim_device_name {
            remove_all(items[k].as_slice(), prefix.as_slice())
        } else {
            items[k].clone()
        };
        assert(bytes@ == names[k as int]);
        match decode_text(bytes) {
            Ok(name) => {
                out.push(name);
            },
            Err(e) => {
                return Err(e);
            },
        }
        k = k + 1;
    }
    Ok(out)
}

} // verus!
