use vstd::prelude::*;
use vstd::string::StrSliceExecFns;

verus! {

/// How a serial port is attached to the host.
pub enum PortKind {
    Usb,
    Other,
}

/// A serial port as the host enumerates it. `product_hint` is the USB
/// product string, empty where the port has none.
pub struct PortDescriptor {
    pub name: String,
    pub kind: PortKind,
    pub product_hint: String,
}

/// What `str::to_lowercase` makes of a string.
pub uninterp spec fn lower_of(s: Seq<char>) -> Seq<char>;

/// Relies on `str::to_lowercase`: the lowercase form of `s`, which depends on
/// the characters of `s` alone.
#[verifier::external_body]
fn lowercase(s: &str) -> (r: String)
    ensures
        r@ == lower_of(s@),
{
    s.to_lowercase()
}

pub open spec fn occurs_at(hay: Seq<char>, needle: Seq<char>, i: int) -> bool {
    &&& 0 <= i
    &&& i + needle.len() <= hay.len()
    &&& hay.subrange(i, i + needle.len()) == needle
}

pub open spec fn contains_seq(hay: Seq<char>, needle: Seq<char>) -> bool {
    exists|i: int| occurs_at(hay, needle, i)
}

/// A device name that looks like the display's serial port.
pub open spec fn name_has_key(name: Seq<char>) -> bool {
    ||| contains_seq(name, "usb"@)
    ||| contains_seq(name, "acm"@)
    ||| contains_seq(name, "serial"@)
    ||| contains_seq(name, "jtag"@)
    ||| contains_seq(name, "com"@)
}

/// A USB product string of a bridge chip the display is built on.
pub open spec fn product_has_key(product: Seq<char>) -> bool {
    ||| contains_seq(product, "cp210"@)
    ||| contains_seq(product, "ch340"@)
    ||| contains_seq(product, "esp32"@)
    ||| contains_seq(product, "serial"@)
    ||| contains_seq(product, "jtag"@)
}

/// The port is taken for the display: its name, or for a USB port its
/// product string, compared case-insensitively, holds one of the keys.
pub open spec fn is_candidate_spec(p: PortDescriptor) -> bool {
    ||| name_has_key(lower_of(p.name@))
    ||| (p.kind is Usb && product_has_key(lower_of(p.product_hint@)))
}

fn matches_at(hay: &str, needle: &str, start: usize, hay_len: usize, needle_len: usize) -> (r: bool)
    requires
        hay_len == hay@.len(),
        needle_len == needle@.len(),
        start + needle_len <= hay_len,
    ensures
        r == (hay@.subrange(start as int, start + needle_len) == needle@),
{
    let mut j: usize = 0;
    while j < needle_len
        invariant
            j <= needle_len,
            hay_len == hay@.len(),
            needle_len == needle@.len(),
            start + needle_len <= hay_len,
            forall|k: int| 0 <= k < j ==> hay@[start + k] == needle@[k],
        decreases needle_len - j,
    {
        if hay.get_char(start + j) != needle.get_char(j) {
            assert(hay@.subrange(start as int, start + needle_len)[j as int] != needle@[j as int]);
            return false;
        }
        j = j + 1;
    }
    assert(hay@.subrange(start as int, start + needle_len) =~= needle@);
    true
}

/// Whether `needle` occurs in `hay`.
pub fn contains_str(hay: &str, needle: &str) -> (r: bool)
    ensures
        r == contains_seq(hay@, needle@),
{
    let n = hay.unicode_len();
    let m = needle.unicode_len();
    if m > n {
        return false;
    }
    let mut i: usize = 0;
    while i < n - m
        invariant
            i <= n - m,
            n == hay@.len(),
            m == needle@.len(),
            m <= n,
            forall|k: int| 0 <= k < i ==> !occurs_at(hay@, needle@, k),
        decreases n - m - i,
    {
        if matches_at(hay, needle, i, n, m) {
            assert(occurs_at(hay@, needle@, i as int));
            return true;
        }
        i = i + 1;
    }
    if matches_at(hay, needle, i, n, m) {
        assert(occurs_at(hay@, needle@, i as int));
        return true;
    }
    assert forall|k: int| !occurs_at(hay@, needle@, k) by {
        if 0 <= k && k + m <= n && k != i {
            assert(k < i);
        }
    }
    false
}

fn name_key_found(name: &str) -> (r: bool)
    ensures
        r == name_has_key(name@),
{
    contains_str(name, "usb") || contains_str(name, "acm") || contains_str(name, "serial")
        || contains_str(name, "jtag") || contains_str(name, "com")
}

fn product_key_found(product: &str) -> (r: bool)
    ensures
        r == product_has_key(product@),
{
    contains_str(product, "cp210") || contains_str(product, "ch340") || contains_str(
        product,
        "esp32",
    ) || contains_str(product, "serial") || contains_str(product, "jtag")
}

/// The matching rule on names and product strings that are already in
/// lowercase.
pub fn matches_lowered(name: &str, product: &str) -> (r: bool)
    ensures
        r == (name_has_key(name@) || product_has_key(product@)),
{
    name_key_found(name) || product_key_found(product)
}

/// Whether the port looks like the display's serial port.
pub fn is_candidate(port: &PortDescriptor) -> (r: bool)
    ensures
        r == is_candidate_spec(*port),
{
    let name = lowercase(port.name.as_str());
    if name_key_found(name.as_str()) {
        return true;
    }
    match port.kind {
        PortKind::Usb => {
            let product = lowercase(port.product_hint.as_str());
            product_key_found(product.as_str())
        },
        PortKind::Other => false,
    }
}

/// The first port, in enumeration order, that looks like the display's
/// serial port; none where no port does.
pub fn find_candidate(ports: &Vec<PortDescriptor>) -> (r: Option<usize>)
    ensures
        match r {
            Some(i) => {
                &&& i < ports@.len()
                &&& is_candidate_spec(ports@[i as int])
                &&& forall|j: int| 0 <= j < i ==> !is_candidate_spec(#[trigger] ports@[j])
            },
            None => forall|j: int| 0 <= j < ports@.len() ==> !is_candidate_spec(#[trigger] ports@[j]),
        },
{
    let mut i: usize = 0;
    while i < ports.len()
        invariant
            i <= ports@.len(),
            forall|j: int| 0 <= j < i ==> !is_candidate_spec(#[trigger] ports@[j]),
        decreases ports.len() - i,
    {
        if is_candidate(&ports[i]) {
            return Some(i);
        }
        i = i + 1;
    }
    None
}

/// The names of the enumerated ports, in enumeration order.
pub fn port_names(ports: &Vec<PortDescriptor>) -> (r: Vec<String>)
    ensures
        r@.len() == ports@.len(),
        forall|i: int| 0 <= i < ports@.len() ==> (#[trigger] r@[i])@ == ports@[i].name@,
{
    let mut names: Vec<String> = Vec::new();
    let mut i: usize = 0;
    while i < ports.len()
        invariant
            i <= ports@.len(),
            names@.len() == i,
            forall|j: int| 0 <= j < i ==> (#[trigger] names@[j])@ == ports@[j].name@,
        decreases ports.len() - i,
    {
        names.push(ports[i].name.clone());
        i = i + 1;
    }
    names
}

} // verus!
