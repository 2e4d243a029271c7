use vstd::prelude::*;

verus! {

/// One value of a bus message, as far as the collector reads it. A list is
/// an array or a struct of the bus, a text is a string or an object path;
/// `Other` stands for every value that the collector never looks into.
#[derive(Debug)]
pub enum BusItem {
    Array(Vec<BusItem>),
    Variant(Box<BusItem>),
    DictEntry(Box<BusItem>, Box<BusItem>),
    Str(String),
    Bool(bool),
    Byte(u8),
    UInt16(u16),
    Other,
}

/// The members of a list.
pub open spec fn item_list(item: BusItem) -> Option<Seq<BusItem>> {
    match item {
        BusItem::Array(v) => Some(v@),
        _ => None,
    }
}

/// The characters of a text.
pub open spec fn item_text(item: BusItem) -> Option<Seq<char>> {
    match item {
        BusItem::Str(s) => Some(s@),
        _ => None,
    }
}

/// The value inside a variant.
pub open spec fn item_variant(item: BusItem) -> Option<BusItem> {
    match item {
        BusItem::Variant(inner) => Some(*inner),
        _ => None,
    }
}

/// The key and the value of a dictionary entry.
pub open spec fn item_entry(item: BusItem) -> Option<(BusItem, BusItem)> {
    match item {
        BusItem::DictEntry(k, v) => Some((*k, *v)),
        _ => None,
    }
}

/// The bytes that a list of byte values holds: none where a member is not a
/// byte.
pub open spec fn items_bytes(items: Seq<BusItem>) -> Option<Seq<u8>>
    decreases items.len(),
{
    if items.len() == 0 {
        Some(Seq::empty())
    } else {
        match (items_bytes(items.drop_last()), items.last()) {
            (Some(front), BusItem::Byte(b)) => Some(front.push(b)),
            _ => None,
        }
    }
}

/// The bytes that a variant around a list of byte values holds.
pub open spec fn variant_bytes(item: BusItem) -> Option<Seq<u8>> {
    match item_variant(item) {
        Some(inner) => match item_list(inner) {
            Some(items) => items_bytes(items),
            None => None,
        },
        None => None,
    }
}

/// The text that a variant around a text holds.
pub open spec fn variant_text(item: BusItem) -> Option<Seq<char>> {
    match item_variant(item) {
        Some(inner) => item_text(inner),
        None => None,
    }
}

/// The key and the bytes of one entry of manufacturer data: a dictionary
/// entry from a 16-bit number to a variant around bytes.
pub open spec fn mfr_entry(item: BusItem) -> Option<(u16, Seq<u8>)> {
    match item_entry(item) {
        Some((BusItem::UInt16(key), value)) => match variant_bytes(value) {
            Some(bytes) => Some((key, bytes)),
            None => None,
        },
        _ => None,
    }
}

/// The key and the bytes of one entry of service data: a dictionary entry
/// from a text to a variant around bytes.
pub open spec fn svc_entry(item: BusItem) -> Option<(Seq<char>, Seq<u8>)> {
    match item_entry(item) {
        Some((BusItem::Str(key), value)) => match variant_bytes(value) {
            Some(bytes) => Some((key@, bytes)),
            None => None,
        },
        _ => None,
    }
}

/// The entries of manufacturer data, in their order: none where a member
/// is not such an entry.
pub open spec fn mfr_entries(items: Seq<BusItem>) -> Option<Seq<(u16, Seq<u8>)>>
    decreases items.len(),
{
    if items.len() == 0 {
        Some(Seq::empty())
    } else {
        match (mfr_entries(items.drop_last()), mfr_entry(items.last())) {
            (Some(front), Some(entry)) => Some(front.push(entry)),
            _ => None,
        }
    }
}

/// The entries of service data, in their order: none where a member is not
/// such an entry.
pub open spec fn svc_entries(items: Seq<BusItem>) -> Option<Seq<(Seq<char>, Seq<u8>)>>
    decreases items.len(),
{
    if items.len() == 0 {
        Some(Seq::empty())
    } else {
        match (svc_entries(items.drop_last()), svc_entry(items.last())) {
            (Some(front), Some(entry)) => Some(front.push(entry)),
            _ => None,
        }
    }
}

impl BusItem {
    /// The members of a list.
    pub fn as_list(&self) -> (r: Option<&Vec<BusItem>>)
        ensures
            r is Some == item_list(*self) is Some,
            r is Some ==> r.unwrap()@ == item_list(*self).unwrap(),
    {
        match self {
            BusItem::Array(v) => Some(v),
            _ => None,
        }
    }

    /// The characters of a text.
    pub fn as_text(&self) -> (r: Option<&str>)
        ensures
            r is Some == item_text(*self) is Some,
            r is Some ==> r.unwrap()@ == item_text(*self).unwrap(),
    {
        match self {
            BusItem::Str(s) => Some(s.as_str()),
            _ => None,
        }
    }

    /// The value inside a variant.
    pub fn as_variant(&self) -> (r: Option<&BusItem>)
        ensures
            r is Some == item_variant(*self) is Some,
            r is Some ==> *r.unwrap() == item_variant(*self).unwrap(),
    {
        match self {
            BusItem::Variant(inner) => Some(&**inner),
            _ => None,
        }
    }

    /// The key and the value of a dictionary entry.
    pub fn as_entry(&self) -> (r: Option<(&BusItem, &BusItem)>)
        ensures
            r is Some == item_entry(*self) is Some,
            r is Some ==> (*r.unwrap().0, *r.unwrap().1) == item_entry(*self).unwrap(),
    {
        match self {
            BusItem::DictEntry(k, v) => Some((&**k, &**v)),
            _ => None,
        }
    }

    /// The bytes that a variant around a list of byte values holds.
    pub fn variant_as_bytes(&self) -> (r: Option<Vec<u8>>)
        ensures
            r is Some == variant_bytes(*self) is Some,
            r is Some ==> r.unwrap()@ == variant_bytes(*self).unwrap(),
    {
        let inner = match self.as_variant() {
            Some(inner) => inner,
            None => {
                return None;
            },
        };
        let items = match inner.as_list() {
            Some(items) => items,
            None => {
                return None;
            },
        };
        let mut out: Vec<u8> = Vec::new();
        let mut i: usize = 0;
        while i < items.len()
            invariant
                i <= items.len(),
                variant_bytes(*self) == items_bytes(items@),
                items_bytes(items@.take(i as int)) == Some(out@),
            decreases items.len() - i,
        {
            assert(items@.take(i + 1).drop_last() =~= items@.take(i as int));
            assert(items@.take(i + 1).last() == items@[i as int]);
            match &items[i] {
                BusItem::Byte(b) => {
                    out.push(*b);
                },
                _ => {
                    proof {
                        assert(items_bytes(items@.take(i + 1)) is None);
                        lemma_items_bytes_prefix(items@, i + 1);
                    }
                    return None;
                },
            }
            i += 1;
        }
        assert(items@.take(items.len() as int) =~= items@);
        Some(out)
    }
}

/// Where a prefix of a list does not hold bytes alone, the list does not.
proof fn lemma_items_bytes_prefix(items: Seq<BusItem>, n: int)
    requires
        0 <= n <= items.len(),
        items_bytes(items.take(n)) is None,
    ensures
        items_bytes(items) is None,
    decreases items.len() - n,
{
    if n < items.len() {
        assert(items.take(n + 1).drop_last() =~= items.take(n));
        lemma_items_bytes_prefix(items, n + 1);
    } else {
        assert(items.take(n) =~= items);
    }
}

/// Where a prefix of a list is not made of manufacturer data entries, the
/// list is not.
pub proof fn lemma_mfr_entries_prefix(items: Seq<BusItem>, n: int)
    requires
        0 <= n <= items.len(),
        mfr_entries(items.take(n)) is None,
    ensures
        mfr_entries(items) is None,
    decreases items.len() - n,
{
    if n < items.len() {
        assert(items.take(n + 1).drop_last() =~= items.take(n));
        lemma_mfr_entries_prefix(items, n + 1);
    } else {
        assert(items.take(n) =~= items);
    }
}

/// Where a prefix of a list is not made of service data entries, the list
/// is not.
pub proof fn lemma_svc_entries_prefix(items: Seq<BusItem>, n: int)
    requires
        0 <= n <= items.len(),
        svc_entries(items.take(n)) is None,
    ensures
        svc_entries(items) is None,
    decreases items.len() - n,
{
    if n < items.len() {
        assert(items.take(n + 1).drop_last() =~= items.take(n));
        lemma_svc_entries_prefix(items, n + 1);
    } else {
        assert(items.take(n) =~= items);
    }
}

} // verus!
