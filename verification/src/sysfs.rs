//! Decisions on what sysfs shows about USB-C ports: which port a connector
//! label names, and which I2C device sits behind a port.
use vstd::prelude::*;
use crate::cli::first_index;
use crate::text::{
    ascii_lower, char_is_numeric, contains_seq, find_char, has_prefix, lower_contains, lower_has_prefix,
    lower_seq, parse_u16_radix, parse_u16_spec, starts_with, unicode_numeric,
};
use vstd::string::StringSliceAdditionalSpecFns;
use vstd::utf8::encode_utf8;

verus! {

// ------------------------------------------------------------------------
// The I2C device behind a port
// ------------------------------------------------------------------------

/// The bus number in a parent directory name "i2c-<bus>".
pub open spec fn i2c_bus_id(parent: Seq<char>) -> Option<Seq<char>> {
    if starts_with(parent, "i2c-"@) {
        Some(parent.skip(4))
    } else {
        None
    }
}

/// The device name "<bus>-<addr>" cut at its first '-', when its bus is the
/// parent's: the bus and the hexadecimal address text.
pub open spec fn i2c_name_parts(parent: Seq<char>, name: Seq<char>) -> Option<(Seq<char>, Seq<char>)> {
    match i2c_bus_id(parent) {
        None => None,
        Some(bus_id) => match first_index(name, '-') {
            None => None,
            Some(k) => if name.subrange(0, k) == bus_id {
                Some((name.subrange(0, k), name.skip(k + 1)))
            } else {
                None
            },
        },
    }
}

/// The address text of a matching device name is valid hexadecimal (the
/// tool stops with a panic otherwise).
pub open spec fn i2c_names_ok(parent: Seq<char>, name: Seq<char>) -> bool {
    match i2c_name_parts(parent, name) {
        None => true,
        Some((_, addr)) => parse_u16_spec(addr, 16) is Ok,
    }
}

/// The I2C device node and address behind a port whose device directory
/// is `name` inside a directory `parent`.
pub open spec fn i2c_dev_spec(parent: Seq<char>, name: Seq<char>) -> Option<(Seq<char>, u16)> {
    match i2c_name_parts(parent, name) {
        None => None,
        Some((bus, addr)) => match parse_u16_spec(addr, 16) {
            Ok(a) => Some(("/dev/i2c-"@ + bus, a)),
            Err(_) => None,
        },
    }
}

fn name_parts(parent: &str, name: &str) -> (r: Option<(usize, usize)>)
    ensures
        match r {
            None => i2c_name_parts(parent@, name@) is None,
            Some((k, n)) => k < n && n == name@.len() && i2c_name_parts(parent@, name@) == Some(
                (name@.subrange(0, k as int), name@.skip(k + 1)),
            ),
        },
{
    proof {
        reveal_strlit("i2c-");
    }
    if !has_prefix(parent, "i2c-") {
        return None;
    }
    let pn = parent.unicode_len();
    let bus_id = parent.substring_char(4, pn);
    assert(bus_id@ =~= parent@.skip(4));
    let k = find_char(name, '-');
    proof {
        crate::cli::lemma_first_index_of(name@, '-', match k { Some(i) => Some(i as int), None => None });
    }
    let k = match k {
        Some(k) => k,
        None => return None,
    };
    let bus = name.substring_char(0, k);
    let bn = bus.unicode_len();
    let same = bn == bus_id.unicode_len() && has_prefix(bus, bus_id);
    assert(same == (bus@ == bus_id@)) by {
        if bus@.len() == bus_id@.len() {
            assert(bus@.subrange(0, bus_id@.len() as int) =~= bus@);
        }
    }
    if !same {
        return None;
    }
    Some((k, name.unicode_len()))
}

/// Whether the address text of a matching device name is valid.
pub fn i2c_dev_names_ok(parent: &str, name: &str) -> (r: bool)
    ensures
        r == i2c_names_ok(parent@, name@),
{
    match name_parts(parent, name) {
        None => true,
        Some((k, n)) => {
            let addr = name.substring_char(k + 1, n);
            assert(addr@ =~= name@.skip(k + 1));
            parse_u16_radix(addr, 16).is_ok()
        },
    }
}

/// The I2C device node ("/dev/i2c-<bus>") and address behind a port, from
/// the name `parent` of the bus directory and the name `name` of the
/// device directory ("<bus>-<addr>", the address in hexadecimal).
pub fn i2c_dev_from_names(parent: &str, name: &str) -> (r: Option<(String, u16)>)
    requires
        i2c_names_ok(parent@, name@),
    ensures
        match r {
            None => i2c_dev_spec(parent@, name@) is None,
            Some((path, addr)) => i2c_dev_spec(parent@, name@) == Some((path@, addr)),
        },
{
    match name_parts(parent, name) {
        None => None,
        Some((k, n)) => {
            let addr_text = name.substring_char(k + 1, n);
            assert(addr_text@ =~= name@.skip(k + 1));
            match parse_u16_radix(addr_text, 16) {
                Ok(addr) => {
                    let bus = name.substring_char(0, k);
                    let path = String::from_str("/dev/i2c-").concat(bus);
                    Some((path, addr))
                },
                Err(_) => None,
            }
        },
    }
}

// ------------------------------------------------------------------------
// The port that a connector label names
// ------------------------------------------------------------------------

/// A directory entry of the USB-C class: its name, and the label of its
/// connector if that file could be read.
pub struct PortCandidate {
    pub name: String,
    pub label: Option<String>,
}

/// A port candidate as character sequences.
pub struct PortCandidateView {
    pub name: Seq<char>,
    pub label: Option<Seq<char>>,
}

impl View for PortCandidate {
    type V = PortCandidateView;

    open spec fn view(&self) -> PortCandidateView {
        PortCandidateView {
            name: self.name@,
            label: match &self.label {
                Some(l) => Some(l@),
                None => None,
            },
        }
    }
}

/// A port directory: "port" followed by numeric characters only.
pub open spec fn is_port_name(name: Seq<char>) -> bool {
    &&& starts_with(name, "port"@)
    &&& forall|i: int| 4 <= i < name.len() ==> unicode_numeric(#[trigger] name[i])
}

/// The port's connector label, lowered, begins with "usb-c " and holds the
/// connector text, lowered.
pub open spec fn port_matches(p: PortCandidateView, connector: Seq<char>) -> bool {
    &&& is_port_name(p.name)
    &&& p.label is Some
    &&& starts_with(lower_seq(p.label->0), "usb-c "@)
    &&& contains_seq(lower_seq(p.label->0), lower_seq(connector))
}

/// The length in bytes of the port's label.
pub open spec fn label_len(p: PortCandidateView) -> nat {
    encode_utf8(p.label->0).len()
}

/// The choice among matching ports: the first of those with the shortest
/// label, so that "back left" picks "USB-C Back Left" over "USB-C Back Left
/// Middle".
pub open spec fn is_best_port(ports: Seq<PortCandidateView>, connector: Seq<char>, i: int) -> bool {
    &&& 0 <= i < ports.len()
    &&& port_matches(ports[i], connector)
    &&& forall|j: int|
        0 <= j < i && port_matches(ports[j], connector) ==> label_len(ports[j]) > label_len(
            ports[i],
        )
    &&& forall|j: int|
        i < j < ports.len() && port_matches(ports[j], connector) ==> label_len(ports[j])
            >= label_len(ports[i])
}

/// Whether a directory name is that of a port: "port" and numeric characters.
pub fn port_name_ok(name: &str) -> (r: bool)
    ensures
        r == is_port_name(name@),
{
    if !has_prefix(name, "port") {
        return false;
    }
    proof {
        reveal_strlit("port");
    }
    let n = name.unicode_len();
    let mut i: usize = 4;
    while i < n
        invariant
            4 <= i <= n,
            n == name@.len(),
            forall|j: int| 4 <= j < i ==> unicode_numeric(#[trigger] name@[j]),
        decreases n - i,
    {
        if !char_is_numeric(name.get_char(i)) {
            return false;
        }
        i = i + 1;
    }
    true
}

/// Picks the port whose connector label matches `connector`: among the
/// ports whose label, lowered, begins with "usb-c " and holds the connector
/// text, lowered, the first with the shortest label. Both the labels and the
/// connector text are lowered here (ASCII letters only), so callers pass the
/// connector as the user gave it.
pub fn select_typec_port(ports: &Vec<PortCandidate>, connector: &str) -> (r: Option<usize>)
    requires
        forall|i: int|
            0 <= i < ports@.len() && (#[trigger] ports@[i]).label is Some ==> label_len(
                ports@[i]@,
            ) < usize::MAX,
    ensures
        match r {
            None => forall|i: int|
                0 <= i < ports@.len() ==> !port_matches(#[trigger] ports@[i]@, connector@),
            Some(i) => is_best_port(ports@.map_values(|p: PortCandidate| p@), connector@, i as int),
        },
{
    let ghost pv = ports@.map_values(|p: PortCandidate| p@);
    proof {
        reveal_strlit("usb-c ");
    }
    let mut best: Option<usize> = None;
    let mut match_len: usize = usize::MAX;
    let mut i: usize = 0;
    while i < ports.len()
        invariant
            i <= ports@.len(),
            pv == ports@.map_values(|p: PortCandidate| p@),
            forall|j: int|
                0 <= j < ports@.len() && (#[trigger] ports@[j]).label is Some ==> label_len(
                    ports@[j]@,
                ) < usize::MAX,
            match best {
                None => match_len == usize::MAX && forall|j: int|
                    0 <= j < i ==> !port_matches(#[trigger] pv[j], connector@),
                Some(b) => {
                    &&& b < i
                    &&& port_matches(pv[b as int], connector@)
                    &&& match_len == label_len(pv[b as int])
                    &&& forall|j: int|
                        0 <= j < b && port_matches(pv[j], connector@) ==> label_len(pv[j])
                            > match_len
                    &&& forall|j: int|
                        b < j < i && port_matches(pv[j], connector@) ==> label_len(pv[j])
                            >= match_len
                },
            },
        decreases ports@.len() - i,
    {
        let p = &ports[i];
        assert(pv[i as int] == p@);
        if port_name_ok(p.name.as_str()) {
            match &p.label {
                Some(label) => {
                    let l = label.as_str();
                    if lower_has_prefix(l, "usb-c ") && lower_contains(l, connector) {
                        let len = l.len();
                        assert(len == label_len(p@));
                        if len < match_len {
                            best = Some(i);
                            match_len = len;
                        }
                    }
                },
                None => {},
            }
        }
        i = i + 1;
    }
    assert forall|j: int| 0 <= j < ports@.len() implies pv[j] == (#[trigger] ports@[j])@ by {}
    best
}


/// `a` and `b` differ at most in the ASCII case of their letters.
pub open spec fn same_ignoring_ascii_case(a: Seq<char>, b: Seq<char>) -> bool {
    &&& a.len() == b.len()
    &&& forall|i: int| 0 <= i < a.len() ==> ascii_lower(#[trigger] a[i]) == ascii_lower(b[i])
}

proof fn lemma_case_variants_ascii(x: char, y: char)
    requires
        ascii_lower(x) == ascii_lower(y),
        x != y,
    ensures
        (x as u32) < 128,
        (y as u32) < 128,
{
}

proof fn lemma_case_variants_same_len(a: Seq<char>, b: Seq<char>)
    requires
        same_ignoring_ascii_case(a, b),
    ensures
        encode_utf8(a).len() == encode_utf8(b).len(),
    decreases a.len(),
{
    if a.len() > 0 {
        assert(ascii_lower(a[0]) == ascii_lower(b[0]));
        if a[0] != b[0] {
            lemma_case_variants_ascii(a[0], b[0]);
        }
        let (a1, b1) = (a.drop_first(), b.drop_first());
        assert forall|i: int| 0 <= i < a1.len() implies ascii_lower(#[trigger] a1[i])
            == ascii_lower(b1[i]) by {
            assert(a1[i] == a[i + 1] && b1[i] == b[i + 1]);
        }
        lemma_case_variants_same_len(a1, b1);
    }
}

/// The choice of port does not depend on ASCII case: changing the case of
/// letters in any label, or in the connector text, picks the same port.
pub proof fn law_port_choice_ignores_ascii_case(
    ps: Seq<PortCandidateView>,
    qs: Seq<PortCandidateView>,
    c1: Seq<char>,
    c2: Seq<char>,
    i: int,
)
    requires
        ps.len() == qs.len(),
        forall|j: int|
            0 <= j < ps.len() ==> {
                &&& (#[trigger] ps[j]).name == qs[j].name
                &&& ps[j].label is Some <==> qs[j].label is Some
                &&& ps[j].label is Some ==> same_ignoring_ascii_case(
                    ps[j].label->0,
                    qs[j].label->0,
                )
            },
        same_ignoring_ascii_case(c1, c2),
    ensures
        is_best_port(ps, c1, i) <==> is_best_port(qs, c2, i),
{
    assert(lower_seq(c1) =~= lower_seq(c2));
    assert forall|j: int| #![trigger ps[j]] #![trigger qs[j]] 0 <= j < ps.len() implies (port_matches(ps[j], c1)
        <==> port_matches(qs[j], c2)) && (ps[j].label is Some ==> label_len(ps[j]) == label_len(
        qs[j],
    )) by {
        if ps[j].label is Some {
            let (l1, l2) = (ps[j].label->0, qs[j].label->0);
            assert(lower_seq(l1) =~= lower_seq(l2));
            lemma_case_variants_same_len(l1, l2);
        }
    }
}

} // verus!
