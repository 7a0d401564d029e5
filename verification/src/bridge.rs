//! The bridge between browsers and the device: which websocket messages go on
//! to the device, how the serial port is chosen, and what the upload endpoint
//! answers.
use vstd::prelude::*;
use vstd::string::StringSliceAdditionalSpecFns;

verus! {

/// A websocket message, as the bridge sees it.
#[derive(Clone, PartialEq, Eq, Debug)]
pub enum WsFrame {
    Text(String),
    Binary(Vec<u8>),
    Ping(Vec<u8>),
    Pong(Vec<u8>),
    Close,
}

/// What a browser message makes the bridge send to the device: the UTF-8
/// bytes of a text message, the bytes of a binary one, nothing for the
/// control messages.
pub fn device_payload(frame: WsFrame) -> (r: Option<Vec<u8>>)
    ensures
        match frame {
            WsFrame::Text(t) => r matches Some(b) && b@ == vstd::utf8::encode_utf8(t@),
            WsFrame::Binary(d) => r matches Some(b) && b@ == d@,
            _ => r is None,
        },
{
    match frame {
        WsFrame::Text(t) => {
            let s: &str = t.as_str();
            let b = vstd::slice::slice_to_vec(s.as_bytes());
            Some(b)
        },
        WsFrame::Binary(d) => Some(d),
        _ => None,
    }
}

/// The bytes of a binary message from the bridge, which the browser decodes
/// as commands; other messages carry none.
pub fn binary_payload(frame: WsFrame) -> (r: Option<Vec<u8>>)
    ensures
        match frame {
            WsFrame::Binary(d) => r matches Some(b) && b@ == d@,
            _ => r is None,
        },
{
    match frame {
        WsFrame::Binary(d) => Some(d),
        _ => None,
    }
}

/// The text of a browser message, for the bridge that only logs text.
pub fn client_text(frame: WsFrame) -> (r: Option<String>)
    ensures
        match frame {
            WsFrame::Text(t) => r matches Some(s) && s@ == t@,
            _ => r is None,
        },
{
    match frame {
        WsFrame::Text(t) => Some(t),
        _ => None,
    }
}

/// What the development server does with what it receives from a browser.
#[derive(Clone, PartialEq, Eq, Debug)]
pub enum DevServerStep {
    /// Decode these bytes as a user input.
    DecodeInput(Vec<u8>),
    /// The browser left: stop serving it.
    Stop,
    /// Nothing to do with this message.
    Ignore,
}

/// The development server's decision for the next message from a browser,
/// `None` meaning the connection ended.
pub fn dev_server_step(frame: Option<WsFrame>) -> (s: DevServerStep)
    ensures
        match frame {
            Some(WsFrame::Binary(d)) => s matches DevServerStep::DecodeInput(b) && b@ == d@,
            Some(WsFrame::Close) => s is Stop,
            None => s is Stop,
            Some(_) => s is Ignore,
        },
{
    match frame {
        Some(WsFrame::Binary(d)) => DevServerStep::DecodeInput(d),
        Some(WsFrame::Close) => DevServerStep::Stop,
        None => DevServerStep::Stop,
        Some(_) => DevServerStep::Ignore,
    }
}

/// The answer of the upload endpoint, given whether some browser received
/// the upload.
pub fn upload_reply(delivered: bool) -> (r: &'static str)
    ensures
        delivered ==> r@ == "OK"@,
        !delivered ==> r@ == "nobody home?"@,
{
    if delivered {
        "OK"
    } else {
        "nobody home?"
    }
}

/// Unicode lower-casing of a text.
pub uninterp spec fn lowercase(s: Seq<char>) -> Seq<char>;

/// `str::to_lowercase`: the lower-case form of `s`, as Unicode defines it.
#[verifier::external_body]
fn str_to_lowercase(s: &str) -> (r: String)
    ensures
        r@ == lowercase(s@),
{
    s.to_lowercase()
}

/// `needle` occurs in `hay` as a run of consecutive bytes.
pub open spec fn contains_bytes(hay: Seq<u8>, needle: Seq<u8>) -> bool {
    exists|i: int| 0 <= i && i + needle.len() <= hay.len() && #[trigger] hay.subrange(i, i + needle.len()) == needle
}

/// Whether `needle` occurs in `hay` as a run of consecutive bytes.
pub fn bytes_contain(hay: &[u8], needle: &[u8]) -> (r: bool)
    ensures
        r == contains_bytes(hay@, needle@),
{
    if needle.len() > hay.len() {
        return false;
    }
    if needle.len() == 0 {
        assert(hay@.subrange(0int, 0int + needle@.len()) =~= needle@);
        return true;
    }
    let last = hay.len() - needle.len();
    let mut i: usize = 0;
    while i <= last
        invariant
            last == hay@.len() - needle@.len(),
            last < hay.len(),
            hay.len() == hay@.len(),
            i <= last + 1,
            forall|j: int| 0 <= j < i ==> #[trigger] hay@.subrange(j, j + needle@.len()) != needle@,
        decreases last + 1 - i,
    {
        let mut k: usize = 0;
        let mut same = true;
        while k < needle.len()
            invariant
                i <= last,
                last == hay@.len() - needle@.len(),
                hay.len() == hay@.len(),
                k <= needle@.len(),
                same == forall|m: int| 0 <= m < k ==> hay@[i + m] == needle@[m],
            decreases needle@.len() - k,
        {
            if hay[i + k] != needle[k] {
                same = false;
            }
            k = k + 1;
        }
        if same {
            assert(hay@.subrange(i as int, i + needle@.len()) =~= needle@);
            return true;
        }
        assert(hay@.subrange(i as int, i + needle@.len()) != needle@) by {
            let m = choose|m: int| 0 <= m < needle@.len() && hay@[i + m] != needle@[m];
            assert(hay@.subrange(i as int, i + needle@.len())[m] == hay@[i + m]);
        }
        i = i + 1;
    }
    false
}

/// The word that marks the Bluetooth pseudo-ports some systems list.
pub open spec fn bluetooth_word() -> Seq<char> {
    seq!['b', 'l', 'u', 'e', 't', 'o', 'o', 't', 'h']
}

/// A port name that, lower-cased, holds the word "bluetooth".
pub open spec fn is_bluetooth_port(name: Seq<char>) -> bool {
    contains_bytes(vstd::utf8::encode_utf8(lowercase(name)), vstd::utf8::encode_utf8(bluetooth_word()))
}

/// Whether the port called `name` is a Bluetooth pseudo-port.
pub fn bluetooth_port(name: &str) -> (r: bool)
    ensures
        r == is_bluetooth_port(name@),
        r == contains_bytes(vstd::utf8::encode_utf8(lowercase(name@)), seq![98u8, 108, 117, 101, 116, 111, 111, 116, 104]),
{
    let lower = str_to_lowercase(name);
    let word = "bluetooth";
    proof {
        reveal_strlit("bluetooth");
        assert(word@ =~= bluetooth_word());
        lemma_bluetooth_word_bytes();
    }
    bytes_contain(lower.as_str().as_bytes(), word.as_bytes())
}

/// A port is taken for a Bluetooth pseudo-port exactly when the UTF-8 bytes
/// of its lower-cased name hold the bytes of "bluetooth"
/// (`b l u e t o o t h`), and no other word marks one.
pub proof fn lemma_bluetooth_exactly_by_word(name: Seq<char>)
    ensures
        is_bluetooth_port(name) <==> contains_bytes(
            vstd::utf8::encode_utf8(lowercase(name)),
            seq![98u8, 108, 117, 101, 116, 111, 111, 116, 104],
        ),
{
    lemma_bluetooth_word_bytes();
}

/// The UTF-8 bytes of the word "bluetooth".
proof fn lemma_bluetooth_word_bytes()
    ensures
        vstd::utf8::encode_utf8(bluetooth_word()) == seq![98u8, 108, 117, 101, 116, 111, 111, 116, 104],
{
    vstd::utf8::is_ascii_chars_encode_utf8(bluetooth_word());
    assert(vstd::utf8::encode_utf8(bluetooth_word()) =~= seq![98u8, 108, 117, 101, 116, 111, 111, 116, 104]);
}

/// Every listed port whose lower-cased name does not hold "bluetooth" is
/// kept among the ports the bridge tries on its own; every port kept is one
/// of the listed ports and holds no "bluetooth".
pub proof fn lemma_non_bluetooth_ports_kept(names: Seq<Seq<char>>, i: int)
    requires
        0 <= i < names.len(),
    ensures
        !contains_bytes(vstd::utf8::encode_utf8(lowercase(names[i])), seq![98u8, 108, 117, 101, 116, 111, 111, 116, 104])
            ==> usable_ports(names).contains(names[i]),
        forall|j: int| 0 <= j < usable_ports(names).len() ==> names.contains(#[trigger] usable_ports(names)[j])
            && !contains_bytes(vstd::utf8::encode_utf8(lowercase(usable_ports(names)[j])), seq![98u8, 108, 117, 101, 116, 111, 111, 116, 104]),
{
    broadcast use vstd::seq_lib::group_filter_ensures;
    lemma_bluetooth_word_bytes();
    let pred = |n: Seq<char>| !is_bluetooth_port(n);
    if !contains_bytes(vstd::utf8::encode_utf8(lowercase(names[i])), seq![98u8, 108, 117, 101, 116, 111, 111, 116, 104]) {
        names.lemma_filter_contains(pred, i);
    }
    assert forall|j: int| 0 <= j < usable_ports(names).len() implies names.contains(#[trigger] usable_ports(names)[j])
        && !contains_bytes(vstd::utf8::encode_utf8(lowercase(usable_ports(names)[j])), seq![98u8, 108, 117, 101, 116, 111, 111, 116, 104]) by {
        names.lemma_filter_pred(pred, j);
        assert(usable_ports(names).contains(usable_ports(names)[j]));
        names.lemma_filter_contains_rev(pred, usable_ports(names)[j]);
    }
}

/// The names of the ports listed by the system, in order, without the
/// Bluetooth pseudo-ports.
pub open spec fn usable_ports(available: Seq<Seq<char>>) -> Seq<Seq<char>> {
    available.filter(|n: Seq<char>| !is_bluetooth_port(n))
}

/// The ports the system lists, in order, without the Bluetooth pseudo-ports.
pub fn listed_usable_ports(available: &Vec<String>) -> (r: Vec<String>)
    ensures
        r@.map_values(|s: String| s@) == usable_ports(available@.map_values(|s: String| s@)),
{
    let ghost names = available@.map_values(|s: String| s@);
    let mut r: Vec<String> = Vec::new();
    let mut i: usize = 0;
    while i < available.len()
        invariant
            names == available@.map_values(|s: String| s@),
            i <= available@.len(),
            r@.map_values(|s: String| s@) == usable_ports(names.take(i as int)),
        decreases available@.len() - i,
    {
        let ghost before = r@.map_values(|s: String| s@);
        let ghost pre = names.take(i as int);
        let ghost cur = names.take(i + 1);
        assert(cur.drop_last() =~= pre);
        assert(cur.last() == available@[i as int]@);
        assert(usable_ports(cur) == (if !is_bluetooth_port(cur.last()) {
            usable_ports(pre).push(cur.last())
        } else {
            usable_ports(pre)
        })) by {
            reveal(Seq::filter);
        }
        if !bluetooth_port(available[i].as_str()) {
            r.push(available[i].clone());
            assert(r@.map_values(|s: String| s@) =~= before.push(available@[i as int]@));
        } else {
            assert(r@.map_values(|s: String| s@) =~= before);
        }
        i = i + 1;
    }
    assert(names.take(available@.len() as int) =~= names);
    r
}

/// The ports the bridge tries, in order: the one named on the command line,
/// unless that name is empty; else every port the system lists but the
/// Bluetooth ones.
pub fn candidate_ports(arg: Option<String>, available: &Vec<String>) -> (r: Vec<String>)
    ensures
        arg matches Some(p) && p@.len() > 0 ==> r@.len() == 1 && r@[0]@ == arg->0@,
        !(arg matches Some(p) && p@.len() > 0) ==> r@.map_values(|s: String| s@)
            == usable_ports(available@.map_values(|s: String| s@)),
{
    match arg {
        Some(p) => if p.as_str().is_empty() {
            listed_usable_ports(available)
        } else {
            let mut r: Vec<String> = Vec::new();
            r.push(p);
            r
        },
        None => listed_usable_ports(available),
    }
}

/// The ports the first serial bridge tries: the one named on the command
/// line, whatever it is, else every port the system lists but the Bluetooth
/// ones.
pub fn named_or_listed_ports(arg: Option<String>, available: &Vec<String>) -> (r: Vec<String>)
    ensures
        arg is Some ==> r@.len() == 1 && r@[0]@ == arg->0@,
        arg is None ==> r@.map_values(|s: String| s@) == usable_ports(available@.map_values(|s: String| s@)),
{
    match arg {
        Some(p) => {
            let mut r: Vec<String> = Vec::new();
            r.push(p);
            r
        },
        None => listed_usable_ports(available),
    }
}

} // verus!
