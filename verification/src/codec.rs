//! The control channel's wire format.
//!
//! Commands and published states are JSON objects tagged by a `_type`
//! field, in the fixed field order documented for the channel, without
//! insignificant whitespace. String values carry the five common escapes
//! (`\"`, `\\`, `\n`, `\r`, `\t`); any other control character is not
//! representable and a string carrying one raw is rejected. The decoder
//! accepts exactly this canonical form: [`spec_decode_command`] is the
//! grammar, and [`decode_command`] computes it.

use vstd::prelude::*;
use crate::onboarding::CommandView;
use crate::onboarding::OnboardingCommand;
use crate::onboarding::OnboardingSettings;
use crate::onboarding::OnboardingState;
use crate::onboarding::SettingsView;
use crate::onboarding::StateView;

verus! {

/// A character that stands for itself inside a JSON string.
pub open spec fn plain_char(c: char) -> bool {
    c != '"' && c != '\\' && (c as u32) >= 0x20
}

/// A character this format can carry in a string: anything outside the
/// control range, plus the three escapable controls.
pub open spec fn clean_char(c: char) -> bool {
    (c as u32) >= 0x20 || c == '\n' || c == '\r' || c == '\t'
}

/// A string this format can carry.
pub open spec fn text_clean(s: Seq<char>) -> bool {
    forall|i: int| 0 <= i < s.len() ==> clean_char(s[i])
}

/// How one character is written inside a JSON string.
pub open spec fn esc_char(c: char) -> Seq<char> {
    if c == '"' {
        seq!['\\', '"']
    } else if c == '\\' {
        seq!['\\', '\\']
    } else if c == '\n' {
        seq!['\\', 'n']
    } else if c == '\r' {
        seq!['\\', 'r']
    } else if c == '\t' {
        seq!['\\', 't']
    } else {
        seq![c]
    }
}

/// How a whole string value is written, character by character.
pub open spec fn json_escape(s: Seq<char>) -> Seq<char>
    decreases s.len(),
{
    if s.len() == 0 {
        Seq::empty()
    } else {
        esc_char(s[0]) + json_escape(s.drop_first())
    }
}

/// What one escape code stands for.
pub open spec fn unescaped(c: char) -> Option<char> {
    if c == '"' {
        Some('"')
    } else if c == '\\' {
        Some('\\')
    } else if c == 'n' {
        Some('\n')
    } else if c == 'r' {
        Some('\r')
    } else if c == 't' {
        Some('\t')
    } else {
        None
    }
}

/// Reads a string value of `t` starting at `from`, just past the opening
/// quote: the decoded value and the position just past the closing quote,
/// or nothing when the text up to the closing quote is not a canonical
/// string body.
pub open spec fn take_string(t: Seq<char>, from: int) -> Option<(Seq<char>, int)>
    decreases t.len() - from,
{
    if from < 0 || from >= t.len() {
        None
    } else if t[from] == '"' {
        Some((Seq::empty(), from + 1))
    } else if t[from] == '\\' {
        if from + 1 >= t.len() {
            None
        } else {
            match unescaped(t[from + 1]) {
                None => None,
                Some(c) => match take_string(t, from + 2) {
                    None => None,
                    Some(p) => Some((seq![c] + p.0, p.1)),
                },
            }
        }
    } else if plain_char(t[from]) {
        match take_string(t, from + 1) {
            None => None,
            Some(p) => Some((seq![t[from]] + p.0, p.1)),
        }
    } else {
        None
    }
}

/// Whether `lit` occurs in `s` at position `at`.
pub open spec fn lit_at(s: Seq<char>, at: int, lit: Seq<char>) -> bool {
    0 <= at && at + lit.len() <= s.len() && s.subrange(at, at + lit.len()) == lit
}

/// The encoding of the reboot command.
pub open spec fn reboot_json() -> Seq<char> {
    "{\"_type\":\"Reboot\"}"@
}

/// Everything of an initialize command before the first settings value.
pub open spec fn init_prefix() -> Seq<char> {
    "{\"_type\":\"Initialize\",\"settings\":{\"name\":\""@
}

pub open spec fn sep_location() -> Seq<char> {
    ",\"location\":\""@
}

pub open spec fn sep_description() -> Seq<char> {
    ",\"description\":\""@
}

pub open spec fn sep_wifi_ssid() -> Seq<char> {
    ",\"wifi_ssid\":\""@
}

pub open spec fn sep_wifi_password() -> Seq<char> {
    ",\"wifi_password\":\""@
}

/// The canonical encoding of a command.
pub open spec fn spec_command_json(c: CommandView) -> Seq<char> {
    match c {
        CommandView::Reboot => reboot_json(),
        CommandView::Initialize { settings } => init_prefix() + json_escape(settings.name)
            + "\""@ + sep_location() + json_escape(settings.location) + "\""@
            + sep_description() + json_escape(settings.description) + "\""@ + sep_wifi_ssid()
            + json_escape(settings.wifi_ssid) + "\""@ + sep_wifi_password() + json_escape(
            settings.wifi_password,
        ) + "\""@ + "}}"@,
    }
}

/// Whether this format can carry every string of a command.
pub open spec fn command_clean(c: CommandView) -> bool {
    match c {
        CommandView::Reboot => true,
        CommandView::Initialize { settings } => text_clean(settings.name) && text_clean(
            settings.location,
        ) && text_clean(settings.description) && text_clean(settings.wifi_ssid) && text_clean(
            settings.wifi_password,
        ),
    }
}

/// The grammar of the control channel's commands: either exactly the
/// reboot object, or the initialize object with its five string fields in
/// order and nothing else.
pub open spec fn spec_decode_command(s: Seq<char>) -> Option<CommandView> {
    if s == reboot_json() {
        Some(CommandView::Reboot)
    } else if !lit_at(s, 0, init_prefix()) {
        None
    } else {
        match take_string(s, init_prefix().len() as int) {
            None => None,
            Some((name, p1)) => if !lit_at(s, p1, sep_location()) {
                None
            } else {
                match take_string(s, p1 + sep_location().len()) {
                    None => None,
                    Some((location, p2)) => if !lit_at(s, p2, sep_description()) {
                        None
                    } else {
                        match take_string(s, p2 + sep_description().len()) {
                            None => None,
                            Some((description, p3)) => if !lit_at(s, p3, sep_wifi_ssid()) {
                                None
                            } else {
                                match take_string(s, p3 + sep_wifi_ssid().len()) {
                                    None => None,
                                    Some((wifi_ssid, p4)) => if !lit_at(
                                        s,
                                        p4,
                                        sep_wifi_password(),
                                    ) {
                                        None
                                    } else {
                                        match take_string(s, p4 + sep_wifi_password().len()) {
                                            None => None,
                                            Some((wifi_password, p5)) => if p5 + 2 == s.len()
                                                && lit_at(s, p5, "}}"@) {
                                                Some(
                                                    CommandView::Initialize {
                                                        settings: SettingsView {
                                                            name,
                                                            location,
                                                            description,
                                                            wifi_ssid,
                                                            wifi_password,
                                                        },
                                                    },
                                                )
                                            } else {
                                                None
                                            },
                                        }
                                    },
                                }
                            },
                        }
                    },
                }
            },
        }
    }
}

/// Whether `lit` occurs in `s` at position `at`, by characters.
fn match_at(s: &str, at: usize, lit: &str) -> (r: bool)
    ensures
        r == lit_at(s@, at as int, lit@),
{
    let n = s.unicode_len();
    let m = lit.unicode_len();
    if at > n || m > n - at {
        return false;
    }
    let mut j: usize = 0;
    while j < m
        invariant
            at + m <= n,
            n == s@.len(),
            m == lit@.len(),
            0 <= j <= m,
            forall|k: int| 0 <= k < j ==> s@[at + k] == lit@[k],
        decreases m - j,
    {
        if s.get_char(at + j) != lit.get_char(j) {
            assert(s@.subrange(at as int, at + m) != lit@) by {
                assert(s@.subrange(at as int, at + m)[j as int] == s@[at + j]);
            }
            return false;
        }
        j = j + 1;
    }
    assert(s@.subrange(at as int, at + m) =~= lit@);
    true
}

/// Reads one string value, as [`take_string`] defines it.
fn scan_string(s: &str, from: usize) -> (r: Option<(String, usize)>)
    ensures
        match r {
            Some(p) => take_string(s@, from as int) == Some((p.0@, p.1 as int)) && p.1 <= s@.len(),
            None => take_string(s@, from as int) is None,
        },
{
    let n = s.unicode_len();
    if from > n {
        return None;
    }
    let mut out = String::new();
    let mut start = from;
    let mut i = from;
    proof {
        match take_string(s@, from as int) {
            Some(p) => {
                assert(out@ + s@.subrange(from as int, from as int) + p.0 =~= p.0);
            },
            None => {},
        }
    }
    while i < n
        invariant
            n == s@.len(),
            from <= start <= i <= n,
            forall|k: int| start <= k < i ==> plain_char(s@[k]),
            match take_string(s@, i as int) {
                Some(p) => take_string(s@, from as int) == Some(
                    (out@ + s@.subrange(start as int, i as int) + p.0, p.1),
                ),
                None => take_string(s@, from as int) is None,
            },
        decreases n - i,
    {
        let c = s.get_char(i);
        if c == '"' {
            let run = s.substring_char(start, i);
            out.append(run);
            assert(out@ + Seq::<char>::empty() =~= out@);
            return Some((out, i + 1));
        } else if c == '\\' {
            if i + 1 >= n {
                return None;
            }
            let e = s.get_char(i + 1);
            let decoded: &str = if e == '"' {
                "\""
            } else if e == '\\' {
                "\\"
            } else if e == 'n' {
                "\n"
            } else if e == 'r' {
                "\r"
            } else if e == 't' {
                "\t"
            } else {
                return None;
            };
            proof {
                reveal_strlit("\"");
                reveal_strlit("\\");
                reveal_strlit("\n");
                reveal_strlit("\r");
                reveal_strlit("\t");
            }
            assert(decoded@ == seq![unescaped(s@[i + 1])->Some_0]);
            let run = s.substring_char(start, i);
            out.append(run);
            out.append(decoded);
            proof {
                let ghost dc = unescaped(s@[i + 1])->Some_0;
                match take_string(s@, i + 2) {
                    Some(p) => {
                        assert(take_string(s@, i as int) == Some((seq![dc] + p.0, p.1)));
                    },
                    None => {},
                }
            }
            i = i + 2;
            start = i;
        } else if (c as u32) >= 0x20 {
            assert(s@.subrange(start as int, i + 1) =~= s@.subrange(start as int, i as int)
                + seq![s@[i as int]]);
            i = i + 1;
        } else {
            return None;
        }
    }
    None
}

/// Decodes one control-channel command; `None` for anything outside the
/// canonical grammar.
pub fn decode_command(s: &str) -> (r: Option<OnboardingCommand>)
    ensures
        match r {
            Some(c) => spec_decode_command(s@) == Some(c@),
            None => spec_decode_command(s@) is None,
        },
{
    let n = s.unicode_len();
    let reboot = "{\"_type\":\"Reboot\"}";
    if n == reboot.unicode_len() && match_at(s, 0, reboot) {
        assert(s@ =~= reboot_json());
        return Some(OnboardingCommand::Reboot);
    }
    assert(s@ != reboot_json()) by {
        if s@ == reboot_json() {
            assert(s@.subrange(0, reboot@.len() as int) =~= reboot@);
        }
    }
    let prefix = "{\"_type\":\"Initialize\",\"settings\":{\"name\":\"";
    if !match_at(s, 0, prefix) {
        return None;
    }
    let p0 = prefix.unicode_len();
    let (name, p1) = match scan_string(s, p0) {
        Some(x) => x,
        None => {
            return None;
        },
    };
    let sep1 = ",\"location\":\"";
    if !match_at(s, p1, sep1) {
        return None;
    }
    let (location, p2) = match scan_string(s, p1 + sep1.unicode_len()) {
        Some(x) => x,
        None => {
            return None;
        },
    };
    let sep2 = ",\"description\":\"";
    if !match_at(s, p2, sep2) {
        return None;
    }
    let (description, p3) = match scan_string(s, p2 + sep2.unicode_len()) {
        Some(x) => x,
        None => {
            return None;
        },
    };
    let sep3 = ",\"wifi_ssid\":\"";
    if !match_at(s, p3, sep3) {
        return None;
    }
    let (wifi_ssid, p4) = match scan_string(s, p3 + sep3.unicode_len()) {
        Some(x) => x,
        None => {
            return None;
        },
    };
    let sep4 = ",\"wifi_password\":\"";
    if !match_at(s, p4, sep4) {
        return None;
    }
    let (wifi_password, p5) = match scan_string(s, p4 + sep4.unicode_len()) {
        Some(x) => x,
        None => {
            return None;
        },
    };
    if !(n - p5 == 2 && match_at(s, p5, "}}")) {
        return None;
    }
    Some(
        OnboardingCommand::Initialize {
            settings: OnboardingSettings { name, location, description, wifi_ssid, wifi_password },
        },
    )
}

/// Appends a string value in its escaped form.
fn append_escaped(out: &mut String, s: &str)
    requires
        text_clean(s@),
    ensures
        final(out)@ == old(out)@ + json_escape(s@),
{
    let n = s.unicode_len();
    let mut start: usize = 0;
    let mut i: usize = 0;
    proof {
        assert(s@.take(0) =~= Seq::<char>::empty());
        lemma_json_escape_concat(Seq::<char>::empty(), Seq::<char>::empty());
        assert(json_escape(Seq::<char>::empty()) =~= Seq::<char>::empty());
        assert(old(out)@ + json_escape(s@.take(0)) =~= old(out)@);
    }
    while i < n
        invariant
            text_clean(s@),
            n == s@.len(),
            0 <= start <= i <= n,
            forall|k: int| start <= k < i ==> plain_char(s@[k]),
            out@ == old(out)@ + json_escape(s@.take(start as int)),
        decreases n - i,
    {
        let c = s.get_char(i);
        let escape: &str = if c == '"' {
            "\\\""
        } else if c == '\\' {
            "\\\\"
        } else if c == '\n' {
            "\\n"
        } else if c == '\r' {
            "\\r"
        } else if c == '\t' {
            "\\t"
        } else {
            i = i + 1;
            continue ;
        };
        proof {
            reveal_strlit("\\\"");
            reveal_strlit("\\\\");
            reveal_strlit("\\n");
            reveal_strlit("\\r");
            reveal_strlit("\\t");
        }
        assert(escape@ == esc_char(s@[i as int]));
        let run = s.substring_char(start, i);
        out.append(run);
        out.append(escape);
        proof {
            lemma_escape_take_step(s@, start as int, i as int);
        }
        start = i + 1;
        i = i + 1;
    }
    let run = s.substring_char(start, n);
    out.append(run);
    proof {
        lemma_json_escape_concat(s@.take(start as int), s@.subrange(start as int, n as int));
        lemma_json_escape_plain(s@.subrange(start as int, n as int));
        assert(s@.take(start as int) + s@.subrange(start as int, n as int) =~= s@);
    }
}

/// Escaping distributes over concatenation.
pub proof fn lemma_json_escape_concat(a: Seq<char>, b: Seq<char>)
    ensures
        json_escape(a + b) == json_escape(a) + json_escape(b),
    decreases a.len(),
{
    if a.len() == 0 {
        assert(a + b =~= b);
        assert(json_escape(a) =~= Seq::<char>::empty());
        assert(json_escape(a) + json_escape(b) =~= json_escape(b));
    } else {
        assert((a + b).drop_first() =~= a.drop_first() + b);
        lemma_json_escape_concat(a.drop_first(), b);
        assert((a + b)[0] == a[0]);
        assert(esc_char(a[0]) + (json_escape(a.drop_first()) + json_escape(b)) =~= (esc_char(a[0])
            + json_escape(a.drop_first())) + json_escape(b));
    }
}

/// A run of plain characters escapes to itself.
pub proof fn lemma_json_escape_plain(a: Seq<char>)
    requires
        forall|k: int| 0 <= k < a.len() ==> plain_char(a[k]),
    ensures
        json_escape(a) == a,
    decreases a.len(),
{
    if a.len() == 0 {
        assert(json_escape(a) =~= a);
    } else {
        lemma_json_escape_plain(a.drop_first());
        assert(esc_char(a[0]) =~= seq![a[0]]);
        assert(seq![a[0]] + a.drop_first() =~= a);
    }
}

proof fn lemma_escape_take_step(s: Seq<char>, start: int, i: int)
    requires
        0 <= start <= i < s.len(),
        forall|k: int| start <= k < i ==> plain_char(s[k]),
    ensures
        json_escape(s.take(start)) + s.subrange(start, i) + esc_char(s[i]) == json_escape(
            s.take(i + 1),
        ),
{
    let run = s.subrange(start, i);
    lemma_json_escape_plain(run);
    lemma_json_escape_concat(s.take(start), run);
    assert(s.take(start) + run =~= s.take(i));
    lemma_json_escape_concat(s.take(i), seq![s[i]]);
    assert(s.take(i) + seq![s[i]] =~= s.take(i + 1));
    lemma_json_escape_singleton(s[i]);
    assert(json_escape(s.take(start)) + run + esc_char(s[i]) =~= (json_escape(s.take(start))
        + json_escape(run)) + json_escape(seq![s[i]]));
}

/// Reading a string value undoes escaping: wherever the text carries an
/// escaped clean string followed by its closing quote, [`take_string`]
/// yields exactly that string and stops just past the quote.
pub proof fn lemma_take_string_of_escaped(t: Seq<char>, at: int, v: Seq<char>)
    requires
        text_clean(v),
        0 <= at,
        at + json_escape(v).len() + 1 <= t.len(),
        t.subrange(at, at + json_escape(v).len() + 1) == json_escape(v) + seq!['"'],
    ensures
        take_string(t, at) == Some((v, at + json_escape(v).len() + 1)),
    decreases v.len(),
{
    let e = json_escape(v);
    let whole = e + seq!['"'];
    assert(forall|i: int|
        0 <= i < whole.len() ==> t[at + i] == #[trigger] whole[i]) by {
        assert(forall|i: int|
            0 <= i < whole.len() ==> t.subrange(at, at + e.len() + 1)[i] == #[trigger] whole[i]);
    }
    if v.len() == 0 {
        assert(e =~= Seq::<char>::empty());
        assert(t[at] == whole[0]);
        assert(whole[0] == '"');
        assert(take_string(t, at) == Some((Seq::<char>::empty(), at + 1)));
        assert(Seq::<char>::empty() =~= v);
    } else {
        let c = v[0];
        let rest = v.drop_first();
        assert(clean_char(c));
        assert(text_clean(rest)) by {
            assert(forall|k: int| 0 <= k < rest.len() ==> rest[k] == v[k + 1]);
        }
        assert(e == esc_char(c) + json_escape(rest));
        let erest = json_escape(rest);
        let skip: int = esc_char(c).len() as int;
        let sub = t.subrange(at, at + e.len() + 1);
        assert(t.subrange(at + skip, at + skip + erest.len() + 1) =~= sub.subrange(
            skip,
            skip + erest.len() + 1,
        ));
        assert(sub.subrange(skip, skip + erest.len() + 1) == whole.subrange(
            skip,
            skip + erest.len() + 1,
        ));
        assert(whole.subrange(skip, skip + erest.len() + 1) =~= erest + seq!['"']);
        lemma_take_string_of_escaped(t, at + skip, rest);
        assert(whole[0] == e[0]);
        assert(t[at] == whole[0]);
        if c == '"' || c == '\\' || c == '\n' || c == '\r' || c == '\t' {
            assert(skip == 2);
            assert(e[0] == '\\');
            assert(whole[1] == e[1]);
            assert(t[at + 1] == whole[1]);
            assert(unescaped(t[at + 1]) == Some(c));
            assert(take_string(t, at) == Some((seq![c] + rest, at + e.len() + 1)));
        } else {
            assert(skip == 1);
            assert(e[0] == c);
            assert(plain_char(c));
            assert(take_string(t, at) == Some((seq![c] + rest, at + e.len() + 1)));
        }
        assert(seq![c] + rest =~= v);
    }
}

/// Reading a string value is sound: whatever [`take_string`] accepts is
/// exactly the escaped form of the clean string it yields, closing quote
/// included.
pub proof fn lemma_take_string_sound(t: Seq<char>, at: int)
    requires
        take_string(t, at) is Some,
    ensures
        ({
            let p = take_string(t, at)->Some_0;
            &&& at + json_escape(p.0).len() + 1 == p.1
            &&& 0 <= at && p.1 <= t.len()
            &&& t.subrange(at, p.1) == json_escape(p.0) + seq!['"']
            &&& text_clean(p.0)
        }),
    decreases t.len() - at,
{
    let p = take_string(t, at)->Some_0;
    let v = p.0;
    let next = p.1;
    if t[at] == '"' {
        assert(json_escape(v) =~= Seq::<char>::empty());
        assert(t.subrange(at, at + 1) =~= seq![t[at]]);
        assert(json_escape(v) + seq!['"'] =~= seq!['"']);
    } else if t[at] == '\\' {
        let c = unescaped(t[at + 1])->Some_0;
        lemma_take_string_sound(t, at + 2);
        let q = take_string(t, at + 2)->Some_0;
        assert(v == seq![c] + q.0);
        assert(clean_char(c));
        assert(text_clean(v)) by {
            assert(forall|k: int| 1 <= k < v.len() ==> v[k] == q.0[k - 1]);
        }
        assert(json_escape(v) == esc_char(c) + json_escape(q.0)) by {
            assert(v[0] == c);
            assert(v.drop_first() =~= q.0);
        }
        assert(esc_char(c) =~= seq![t[at], t[at + 1]]);
        let w = json_escape(v) + seq!['"'];
        let w2 = json_escape(q.0) + seq!['"'];
        assert(t.subrange(at + 2, next) == w2);
        assert(forall|k: int| 0 <= k < w2.len() ==> #[trigger] w2[k] == t[at + 2 + k]) by {
            assert(forall|k: int|
                0 <= k < w2.len() ==> #[trigger] w2[k] == t.subrange(at + 2, next)[k]);
        }
        assert(forall|k: int| 2 <= k < w.len() ==> #[trigger] w[k] == w2[k - 2]);
        assert(w[0] == t[at] && w[1] == t[at + 1]);
        assert(t.subrange(at, next) =~= w);
    } else {
        let c = t[at];
        lemma_take_string_sound(t, at + 1);
        let q = take_string(t, at + 1)->Some_0;
        assert(v == seq![c] + q.0);
        assert(text_clean(v)) by {
            assert(forall|k: int| 1 <= k < v.len() ==> v[k] == q.0[k - 1]);
        }
        assert(json_escape(v) == esc_char(c) + json_escape(q.0)) by {
            assert(v[0] == c);
            assert(v.drop_first() =~= q.0);
        }
        assert(esc_char(c) =~= seq![c]);
        let w = json_escape(v) + seq!['"'];
        let w2 = json_escape(q.0) + seq!['"'];
        assert(t.subrange(at + 1, next) == w2);
        assert(forall|k: int| 0 <= k < w2.len() ==> #[trigger] w2[k] == t[at + 1 + k]) by {
            assert(forall|k: int|
                0 <= k < w2.len() ==> #[trigger] w2[k] == t.subrange(at + 1, next)[k]);
        }
        assert(forall|k: int| 1 <= k < w.len() ==> #[trigger] w[k] == w2[k - 1]);
        assert(w[0] == t[at]);
        assert(t.subrange(at, next) =~= w);
    }
}

/// Decoding is canonical: whatever the grammar accepts is exactly the
/// canonical encoding of the decoded command, whose strings this format
/// can carry. Together with [`lemma_command_round_trip`] this makes the
/// decoder accept precisely the canonical encodings of clean commands.
#[verifier::rlimit(100)]
pub proof fn lemma_decode_command_canonical(s: Seq<char>)
    requires
        spec_decode_command(s) is Some,
    ensures
        ({
            let c = spec_decode_command(s)->Some_0;
            &&& command_clean(c)
            &&& s == spec_command_json(c)
        }),
{
    reveal_strlit("\"");
    reveal_strlit("}}");
    if s == reboot_json() {
    } else {
        let p = init_prefix();
        let q = "\""@;
        let tl = "}}"@;
        assert(q =~= seq!['"']);
        let p0 = p.len() as int;
        let t1 = take_string(s, p0)->Some_0;
        let name = t1.0;
        let p1 = t1.1;
        lemma_take_string_sound(s, p0);
        let s1 = sep_location();
        let r1 = p1 + s1.len() as int;
        let t2 = take_string(s, r1)->Some_0;
        let location = t2.0;
        let p2 = t2.1;
        lemma_take_string_sound(s, r1);
        let s2 = sep_description();
        let r2 = p2 + s2.len() as int;
        let t3 = take_string(s, r2)->Some_0;
        let description = t3.0;
        let p3 = t3.1;
        lemma_take_string_sound(s, r2);
        let s3 = sep_wifi_ssid();
        let r3 = p3 + s3.len() as int;
        let t4 = take_string(s, r3)->Some_0;
        let wifi_ssid = t4.0;
        let p4 = t4.1;
        lemma_take_string_sound(s, r3);
        let s4 = sep_wifi_password();
        let r4 = p4 + s4.len() as int;
        let t5 = take_string(s, r4)->Some_0;
        let wifi_password = t5.0;
        let p5 = t5.1;
        lemma_take_string_sound(s, r4);
        let e1 = json_escape(name);
        let e2 = json_escape(location);
        let e3 = json_escape(description);
        let e4 = json_escape(wifi_ssid);
        let e5 = json_escape(wifi_password);
        assert(forall|j: int| 0 <= j < p.len() ==> #[trigger] p[j] == s[j]) by {
            assert(forall|j: int|
                0 <= j < p.len() ==> #[trigger] p[j] == s.subrange(0, p.len() as int)[j]);
        }
        let w1 = e1 + seq!['"'];
        assert(forall|j: int| 0 <= j < w1.len() ==> #[trigger] w1[j] == s[p0 + j]) by {
            assert(forall|j: int|
                0 <= j < w1.len() ==> #[trigger] w1[j] == s.subrange(p0, p1)[j]);
        }
        assert(forall|j: int| 0 <= j < e1.len() ==> #[trigger] e1[j] == s[p0 + j]) by {
            assert(forall|j: int| 0 <= j < e1.len() ==> #[trigger] e1[j] == w1[j]);
        }
        assert(s[p1 - 1] == '"') by {
            assert(w1[w1.len() - 1] == '"');
        }
        assert(forall|j: int| 0 <= j < s1.len() ==> #[trigger] s1[j] == s[p1 + j]) by {
            assert(forall|j: int|
                0 <= j < s1.len() ==> #[trigger] s1[j] == s.subrange(p1, p1 + s1.len() as int)[j]);
        }
        let w2 = e2 + seq!['"'];
        assert(forall|j: int| 0 <= j < w2.len() ==> #[trigger] w2[j] == s[r1 + j]) by {
            assert(forall|j: int|
                0 <= j < w2.len() ==> #[trigger] w2[j] == s.subrange(r1, p2)[j]);
        }
        assert(forall|j: int| 0 <= j < e2.len() ==> #[trigger] e2[j] == s[r1 + j]) by {
            assert(forall|j: int| 0 <= j < e2.len() ==> #[trigger] e2[j] == w2[j]);
        }
        assert(s[p2 - 1] == '"') by {
            assert(w2[w2.len() - 1] == '"');
        }
        assert(forall|j: int| 0 <= j < s2.len() ==> #[trigger] s2[j] == s[p2 + j]) by {
            assert(forall|j: int|
                0 <= j < s2.len() ==> #[trigger] s2[j] == s.subrange(p2, p2 + s2.len() as int)[j]);
        }
        let w3 = e3 + seq!['"'];
        assert(forall|j: int| 0 <= j < w3.len() ==> #[trigger] w3[j] == s[r2 + j]) by {
            assert(forall|j: int|
                0 <= j < w3.len() ==> #[trigger] w3[j] == s.subrange(r2, p3)[j]);
        }
        assert(forall|j: int| 0 <= j < e3.len() ==> #[trigger] e3[j] == s[r2 + j]) by {
            assert(forall|j: int| 0 <= j < e3.len() ==> #[trigger] e3[j] == w3[j]);
        }
        assert(s[p3 - 1] == '"') by {
            assert(w3[w3.len() - 1] == '"');
        }
        assert(forall|j: int| 0 <= j < s3.len() ==> #[trigger] s3[j] == s[p3 + j]) by {
            assert(forall|j: int|
                0 <= j < s3.len() ==> #[trigger] s3[j] == s.subrange(p3, p3 + s3.len() as int)[j]);
        }
        let w4 = e4 + seq!['"'];
        assert(forall|j: int| 0 <= j < w4.len() ==> #[trigger] w4[j] == s[r3 + j]) by {
            assert(forall|j: int|
                0 <= j < w4.len() ==> #[trigger] w4[j] == s.subrange(r3, p4)[j]);
        }
        assert(forall|j: int| 0 <= j < e4.len() ==> #[trigger] e4[j] == s[r3 + j]) by {
            assert(forall|j: int| 0 <= j < e4.len() ==> #[trigger] e4[j] == w4[j]);
        }
        assert(s[p4 - 1] == '"') by {
            assert(w4[w4.len() - 1] == '"');
        }
        assert(forall|j: int| 0 <= j < s4.len() ==> #[trigger] s4[j] == s[p4 + j]) by {
            assert(forall|j: int|
                0 <= j < s4.len() ==> #[trigger] s4[j] == s.subrange(p4, p4 + s4.len() as int)[j]);
        }
        let w5 = e5 + seq!['"'];
        assert(forall|j: int| 0 <= j < w5.len() ==> #[trigger] w5[j] == s[r4 + j]) by {
            assert(forall|j: int|
                0 <= j < w5.len() ==> #[trigger] w5[j] == s.subrange(r4, p5)[j]);
        }
        assert(forall|j: int| 0 <= j < e5.len() ==> #[trigger] e5[j] == s[r4 + j]) by {
            assert(forall|j: int| 0 <= j < e5.len() ==> #[trigger] e5[j] == w5[j]);
        }
        assert(s[p5 - 1] == '"') by {
            assert(w5[w5.len() - 1] == '"');
        }
        assert(forall|j: int| 0 <= j < 2 ==> #[trigger] tl[j] == s[p5 + j]) by {
            assert(forall|j: int| 0 <= j < 2 ==> #[trigger] tl[j] == s.subrange(p5, p5 + 2)[j]);
        }
        assert(s.len() == p5 + 2);
        let c = spec_decode_command(s)->Some_0;
        assert(s =~= spec_command_json(c));
    }
}

/// The codec's round trip: decoding the canonical encoding of any command
/// whose strings this format can carry yields exactly that command.
#[verifier::rlimit(100)]
pub proof fn lemma_command_round_trip(c: CommandView)
    requires
        command_clean(c),
    ensures
        spec_decode_command(spec_command_json(c)) == Some(c),
{
    reveal_strlit("\"");
    reveal_strlit("}}");
    reveal_strlit("{\"_type\":\"Reboot\"}");
    reveal_strlit("{\"_type\":\"Initialize\",\"settings\":{\"name\":\"");
    reveal_strlit(",\"location\":\"");
    reveal_strlit(",\"description\":\"");
    reveal_strlit(",\"wifi_ssid\":\"");
    reveal_strlit(",\"wifi_password\":\"");
    match c {
        CommandView::Reboot => {
        },
        CommandView::Initialize { settings } => {
            let s = spec_command_json(c);
            let p = init_prefix();
            let q = "\""@;
            assert(q =~= seq!['"']);
            let e1 = json_escape(settings.name);
            let e2 = json_escape(settings.location);
            let e3 = json_escape(settings.description);
            let e4 = json_escape(settings.wifi_ssid);
            let e5 = json_escape(settings.wifi_password);
            let s1 = sep_location();
            let s2 = sep_description();
            let s3 = sep_wifi_ssid();
            let s4 = sep_wifi_password();
            let p0 = p.len() as int;
            let p1 = p0 + e1.len() + 1;
            let r1 = p1 + s1.len() as int;
            let p2 = r1 + e2.len() + 1;
            let r2 = p2 + s2.len() as int;
            let p3 = r2 + e3.len() + 1;
            let r3 = p3 + s3.len() as int;
            let p4 = r3 + e4.len() + 1;
            let r4 = p4 + s4.len() as int;
            let p5 = r4 + e5.len() + 1;
            assert(s.len() == p5 + 2);
            assert(s != reboot_json());
            assert(lit_at(s, 0, p)) by {
                assert(s.subrange(0, p.len() as int) =~= p);
            }
            assert(s.subrange(p0, p0 + e1.len() + 1) =~= e1 + seq!['"']);
            lemma_take_string_of_escaped(s, p0, settings.name);
            assert(lit_at(s, p1, s1)) by {
                assert(s.subrange(p1, p1 + s1.len()) =~= s1);
            }
            assert(s.subrange(r1, r1 + e2.len() + 1) =~= e2 + seq!['"']);
            lemma_take_string_of_escaped(s, r1, settings.location);
            assert(lit_at(s, p2, s2)) by {
                assert(s.subrange(p2, p2 + s2.len()) =~= s2);
            }
            assert(s.subrange(r2, r2 + e3.len() + 1) =~= e3 + seq!['"']);
            lemma_take_string_of_escaped(s, r2, settings.description);
            assert(lit_at(s, p3, s3)) by {
                assert(s.subrange(p3, p3 + s3.len()) =~= s3);
            }
            assert(s.subrange(r3, r3 + e4.len() + 1) =~= e4 + seq!['"']);
            lemma_take_string_of_escaped(s, r3, settings.wifi_ssid);
            assert(lit_at(s, p4, s4)) by {
                assert(s.subrange(p4, p4 + s4.len()) =~= s4);
            }
            assert(s.subrange(r4, r4 + e5.len() + 1) =~= e5 + seq!['"']);
            lemma_take_string_of_escaped(s, r4, settings.wifi_password);
            assert(lit_at(s, p5, "}}"@)) by {
                assert(s.subrange(p5, p5 + 2) =~= "}}"@);
            }
            assert(spec_decode_command(s) == Some(
                CommandView::Initialize {
                    settings: SettingsView {
                        name: settings.name,
                        location: settings.location,
                        description: settings.description,
                        wifi_ssid: settings.wifi_ssid,
                        wifi_password: settings.wifi_password,
                    },
                },
            ));
        },
    }
}

/// One character escapes to its own escape sequence.
pub proof fn lemma_json_escape_singleton(c: char)
    ensures
        json_escape(seq![c]) == esc_char(c),
{
    let a = seq![c];
    assert(a.drop_first() =~= Seq::<char>::empty());
    assert(json_escape(a.drop_first()) == json_escape(Seq::<char>::empty()));
    assert(json_escape(Seq::<char>::empty()) =~= Seq::<char>::empty());
    assert(esc_char(c) + Seq::<char>::empty() =~= esc_char(c));
    assert(a[0] == c);
}

/// Encodes a command canonically; inverse of [`decode_command`].
pub fn encode_command(c: &OnboardingCommand) -> (r: String)
    requires
        command_clean(c@),
    ensures
        r@ == spec_command_json(c@),
{
    match c {
        OnboardingCommand::Reboot => String::from_str("{\"_type\":\"Reboot\"}"),
        OnboardingCommand::Initialize { settings } => {
            let mut out = String::from_str("{\"_type\":\"Initialize\",\"settings\":{\"name\":\"");
            append_escaped(&mut out, settings.name.as_str());
            out.append("\"");
            out.append(",\"location\":\"");
            append_escaped(&mut out, settings.location.as_str());
            out.append("\"");
            out.append(",\"description\":\"");
            append_escaped(&mut out, settings.description.as_str());
            out.append("\"");
            out.append(",\"wifi_ssid\":\"");
            append_escaped(&mut out, settings.wifi_ssid.as_str());
            out.append("\"");
            out.append(",\"wifi_password\":\"");
            append_escaped(&mut out, settings.wifi_password.as_str());
            out.append("\"");
            out.append("}}");
            out
        },
    }
}

/// The canonical encoding of a published state.
pub open spec fn spec_state_json(sv: StateView) -> Seq<char> {
    match sv {
        StateView::AwaitingSettings => "{\"_type\":\"AwaitingSettings\"}"@,
        StateView::ProvisioningWifi => "{\"_type\":\"ProvisioningWifi\"}"@,
        StateView::Complete => "{\"_type\":\"Complete\"}"@,
        StateView::Failed { error } => "{\"_type\":\"Failed\",\"error\":\""@ + json_escape(error)
            + "\"}"@,
        StateView::AwaitingAuthorization { url } => "{\"_type\":\"AwaitingAuthorization\",\"url\":\""@
            + json_escape(url) + "\"}"@,
    }
}

/// Whether this format can carry a published state's strings.
pub open spec fn state_clean(sv: StateView) -> bool {
    match sv {
        StateView::Failed { error } => text_clean(error),
        StateView::AwaitingAuthorization { url } => text_clean(url),
        _ => true,
    }
}

/// Encodes a published state for the control channel's read-back.
pub fn encode_state(st: &OnboardingState) -> (r: String)
    requires
        state_clean(st@),
    ensures
        r@ == spec_state_json(st@),
{
    match st {
        OnboardingState::AwaitingSettings => String::from_str("{\"_type\":\"AwaitingSettings\"}"),
        OnboardingState::ProvisioningWifi => String::from_str("{\"_type\":\"ProvisioningWifi\"}"),
        OnboardingState::Complete => String::from_str("{\"_type\":\"Complete\"}"),
        OnboardingState::Failed { error } => {
            let mut out = String::from_str("{\"_type\":\"Failed\",\"error\":\"");
            append_escaped(&mut out, error.as_str());
            out.append("\"}");
            out
        },
        OnboardingState::AwaitingAuthorization { url } => {
            let mut out = String::from_str("{\"_type\":\"AwaitingAuthorization\",\"url\":\"");
            append_escaped(&mut out, url.as_str());
            out.append("\"}");
            out
        },
    }
}

} // verus!
