//! The aggregator: the single consumer of module messages.
//!
//! A fixed set of modules is registered once, in display order.  Each message
//! carries a module key, an optional value and an optional label; the
//! aggregator keeps one current fragment per module and rebuilds the whole
//! line from scratch on demand, so the line's layout depends only on the
//! registration order, never on message arrival order.

use vstd::prelude::*;
use vstd::pervasive::VecAdditionalExecFns;
use vstd::string::StrSliceExecFns;
use vstd::string::StringExecFns;

use crate::error::Error;
use crate::text::push_char;
use crate::ModuleMsg;

verus! {

/// One registered module's immutable description: its unique key, human
/// name, the placeholder shown before its first message, the output format
/// template (`%v` for the value, `%l` for the label) and its tick interval
/// in milliseconds.
pub struct ModuleSpec {
    pub key: char,
    pub name: String,
    pub placeholder: String,
    pub format: String,
    pub tick_ms: u64,
}

/// No two registered modules share a key.
pub open spec fn keys_unique(ms: Seq<ModuleSpec>) -> bool {
    forall|i: int, j: int| 0 <= i < j < ms.len() ==> ms[i].key != ms[j].key
}

/// Some registered module owns the key `k`.
pub open spec fn has_key(ms: Seq<ModuleSpec>, k: char) -> bool {
    exists|i: int| 0 <= i < ms.len() && ms[i].key == k
}

/// The position of the module owning `k` (meaningful when `has_key` holds
/// and keys are unique).
pub open spec fn index_of_key(ms: Seq<ModuleSpec>, k: char) -> int {
    choose|i: int| 0 <= i < ms.len() && ms[i].key == k
}

pub proof fn lemma_index_of_key(ms: Seq<ModuleSpec>, k: char, i: int)
    requires
        keys_unique(ms),
        0 <= i < ms.len(),
        ms[i].key == k,
    ensures
        has_key(ms, k),
        index_of_key(ms, k) == i,
{
    assert(has_key(ms, k));
    let j = index_of_key(ms, k);
    if j < i {
        assert(ms[j].key != ms[i].key);
    } else if i < j {
        assert(ms[i].key != ms[j].key);
    }
}

/// Template substitution: each `%v` in `fmt` becomes `v`, each `%l` becomes
/// `l`, and every other character is copied verbatim.
pub open spec fn apply_format_spec(fmt: Seq<char>, v: Seq<char>, l: Seq<char>) -> Seq<char>
    decreases fmt.len(),
{
    if fmt.len() == 0 {
        Seq::empty()
    } else if fmt.len() >= 2 && fmt[0] == '%' && fmt[1] == 'v' {
        v + apply_format_spec(fmt.skip(2), v, l)
    } else if fmt.len() >= 2 && fmt[0] == '%' && fmt[1] == 'l' {
        l + apply_format_spec(fmt.skip(2), v, l)
    } else {
        seq![fmt[0]] + apply_format_spec(fmt.skip(1), v, l)
    }
}

/// Substitutes `value` for `%v` and `label` for `%l` in `fmt`.
pub fn apply_format(fmt: &str, value: &str, label: &str) -> (r: String)
    ensures
        r@ == apply_format_spec(fmt@, value@, label@),
{
    let n = fmt.unicode_len();
    let mut out = String::new();
    let mut i: usize = 0;
    proof {
        assert(fmt@.skip(0) =~= fmt@);
        assert(out@ + apply_format_spec(fmt@, value@, label@) =~= apply_format_spec(
            fmt@,
            value@,
            label@,
        ));
    }
    while i < n
        invariant
            i <= n,
            n == fmt@.len(),
            out@ + apply_format_spec(fmt@.skip(i as int), value@, label@) == apply_format_spec(
                fmt@,
                value@,
                label@,
            ),
        decreases n - i,
    {
        let ghost rem = fmt@.skip(i as int);
        let ghost out0 = out@;
        let c0 = fmt.get_char(i);
        assert(rem[0] == c0);
        if c0 == '%' && i + 1 < n {
            let c1 = fmt.get_char(i + 1);
            assert(rem[1] == c1);
            if c1 == 'v' {
                out.append(value);
                proof {
                    assert(rem.skip(2) =~= fmt@.skip(i + 2));
                    assert((out0 + value@) + apply_format_spec(fmt@.skip(i + 2), value@, label@)
                        =~= out0 + (value@ + apply_format_spec(fmt@.skip(i + 2), value@, label@)));
                }
                i += 2;
            } else if c1 == 'l' {
                out.append(label);
                proof {
                    assert(rem.skip(2) =~= fmt@.skip(i + 2));
                    assert((out0 + label@) + apply_format_spec(fmt@.skip(i + 2), value@, label@)
                        =~= out0 + (label@ + apply_format_spec(fmt@.skip(i + 2), value@, label@)));
                }
                i += 2;
            } else {
                push_char(&mut out, c0);
                proof {
                    assert(rem.skip(1) =~= fmt@.skip(i + 1));
                    assert(out0.push(c0) =~= out0 + seq![c0]);
                    assert((out0 + seq![c0]) + apply_format_spec(fmt@.skip(i + 1), value@, label@)
                        =~= out0 + (seq![c0] + apply_format_spec(fmt@.skip(i + 1), value@, label@)));
                }
                i += 1;
            }
        } else {
            push_char(&mut out, c0);
            proof {
                assert(rem.skip(1) =~= fmt@.skip(i + 1));
                assert(out0.push(c0) =~= out0 + seq![c0]);
                assert((out0 + seq![c0]) + apply_format_spec(fmt@.skip(i + 1), value@, label@)
                    =~= out0 + (seq![c0] + apply_format_spec(fmt@.skip(i + 1), value@, label@)));
            }
            i += 1;
        }
    }
    proof {
        assert(fmt@.skip(n as int) =~= Seq::<char>::empty());
        assert(out@ =~= out@ + Seq::<char>::empty());
    }
    out
}

/// The characters of an optional label; absent labels substitute as nothing.
pub open spec fn opt_label_view(l: Option<String>) -> Seq<char> {
    match l {
        Some(s) => s@,
        None => Seq::empty(),
    }
}

/// The fragment that module `m` shows after receiving `msg`: the format
/// template applied to the message's value and label, or the module's
/// placeholder when the message carries no value.
pub open spec fn fragment_of(m: ModuleSpec, msg: ModuleMsg) -> Seq<char> {
    match msg.1 {
        Some(v) => apply_format_spec(m.format@, v@, opt_label_view(msg.2)),
        None => m.placeholder@,
    }
}

/// Each module's fragment before its first message: its placeholder.
pub open spec fn initial_fragments(ms: Seq<ModuleSpec>) -> Seq<Seq<char>> {
    ms.map_values(|m: ModuleSpec| m.placeholder@)
}

/// The fragments after one message: the entry of the module owning the
/// message's key is replaced, every other entry is untouched, and a message
/// with an unknown key changes nothing.
pub open spec fn handle_spec(ms: Seq<ModuleSpec>, fs: Seq<Seq<char>>, msg: ModuleMsg) -> Seq<
    Seq<char>,
> {
    if has_key(ms, msg.0) {
        fs.update(index_of_key(ms, msg.0), fragment_of(ms[index_of_key(ms, msg.0)], msg))
    } else {
        fs
    }
}

/// The fragments after a whole sequence of messages, oldest first.
pub open spec fn process_spec(
    ms: Seq<ModuleSpec>,
    fs: Seq<Seq<char>>,
    msgs: Seq<ModuleMsg>,
) -> Seq<Seq<char>>
    decreases msgs.len(),
{
    if msgs.len() == 0 {
        fs
    } else {
        process_spec(ms, handle_spec(ms, fs, msgs[0]), msgs.drop_first())
    }
}

/// The full line: every fragment in display order, separated by one space.
pub open spec fn render_spec(fs: Seq<Seq<char>>) -> Seq<char>
    decreases fs.len(),
{
    if fs.len() == 0 {
        Seq::empty()
    } else if fs.len() == 1 {
        fs[0]
    } else {
        render_spec(fs.drop_last()) + seq![' '] + fs.last()
    }
}

/// The single consumer of module messages.  It owns one current fragment
/// per registered module, seeded with the module's placeholder, and rebuilds
/// the whole output line from those fragments on demand.
pub struct Aggregator {
    modules: Vec<ModuleSpec>,
    fragments: Vec<String>,
}

impl Aggregator {
    /// The registered modules, in display order.
    pub closed spec fn modules_seq(&self) -> Seq<ModuleSpec> {
        self.modules@
    }

    /// The current fragment of each module, index-aligned with the display
    /// order.
    pub closed spec fn fragments_view(&self) -> Seq<Seq<char>> {
        self.fragments.deep_view()
    }

    /// There is exactly one fragment per registered module and no two
    /// modules share a key.
    pub open spec fn wf(&self) -> bool {
        &&& self.fragments_view().len() == self.modules_seq().len()
        &&& keys_unique(self.modules_seq())
    }

    /// Registers the module set.  Succeeds exactly when all keys are
    /// distinct; a duplicated key is a configuration error, fatal before
    /// anything runs.  On success every fragment starts as its module's
    /// placeholder.
    pub fn new(modules: Vec<ModuleSpec>) -> (r: Result<Aggregator, Error>)
        ensures
            r is Ok <==> keys_unique(modules@),
            r matches Ok(agg) ==> {
                &&& agg.wf()
                &&& agg.modules_seq() == modules@
                &&& agg.fragments_view() == initial_fragments(modules@)
            },
            r matches Err(e) ==> exists|i: int, j: int|
                0 <= i < j < modules@.len() && modules@[i].key == modules@[j].key && e
                    == Error::DuplicateKey(modules@[j].key),
    {
        let n = modules.len();
        let mut i: usize = 1;
        while i < n
            invariant
                1 <= i,
                n == modules@.len(),
                forall|p: int, q: int| 0 <= p < q < i ==> modules@[p].key != modules@[q].key,
            decreases n - i,
        {
            let mut j: usize = 0;
            while j < i
                invariant
                    j <= i < n,
                    n == modules@.len(),
                    forall|p: int| 0 <= p < j ==> modules@[p].key != modules@[i as int].key,
                decreases i - j,
            {
                if modules[j].key == modules[i].key {
                    return Err(Error::DuplicateKey(modules[i].key));
                }
                j += 1;
            }
            i += 1;
        }
        assert(keys_unique(modules@));
        let mut fragments: Vec<String> = Vec::new();
        let mut k: usize = 0;
        while k < n
            invariant
                k <= n,
                n == modules@.len(),
                fragments.deep_view().len() == k,
                forall|p: int|
                    0 <= p < k ==> fragments.deep_view()[p] == modules@[p].placeholder@,
            decreases n - k,
        {
            let ghost prev = fragments.deep_view();
            let ph = modules[k].placeholder.clone();
            fragments.push(ph);
            proof {
                assert(fragments.deep_view() =~= prev.push(ph@));
            }
            k += 1;
        }
        let agg = Aggregator { modules, fragments };
        proof {
            assert(agg.fragments_view() =~= initial_fragments(agg.modules_seq()));
        }
        Ok(agg)
    }

    /// Consumes one message.  Succeeds exactly when some registered module
    /// owns the message's key; then that module's fragment, and only it, is
    /// replaced as `handle_spec` says.  An unknown key is a programming
    /// error: the state is left untouched and the key is reported.
    pub fn handle_msg(&mut self, msg: ModuleMsg) -> (r: Result<(), Error>)
        requires
            old(self).wf(),
        ensures
            final(self).wf(),
            final(self).modules_seq() == old(self).modules_seq(),
            r is Ok <==> has_key(old(self).modules_seq(), msg.0),
            r is Ok ==> final(self).fragments_view() == handle_spec(
                old(self).modules_seq(),
                old(self).fragments_view(),
                msg,
            ),
            r matches Err(e) ==> {
                &&& e == Error::UnknownKey(msg.0)
                &&& final(self).fragments_view() == old(self).fragments_view()
            },
    {
        let n = self.modules.len();
        let mut i: usize = 0;
        while i < n
            invariant
                i <= n,
                n == self.modules@.len(),
                *self == *old(self),
                old(self).wf(),
                forall|p: int| 0 <= p < i ==> self.modules@[p].key != msg.0,
            decreases n - i,
        {
            if self.modules[i].key == msg.0 {
                let frag: String = match &msg.1 {
                    Some(v) => {
                        let label: &str = match &msg.2 {
                            Some(l) => l.as_str(),
                            None => "",
                        };
                        proof {
                            reveal_strlit("");
                            assert(label@ =~= opt_label_view(msg.2));
                        }
                        apply_format(self.modules[i].format.as_str(), v.as_str(), label)
                    },
                    None => self.modules[i].placeholder.clone(),
                };
                proof {
                    lemma_index_of_key(self.modules@, msg.0, i as int);
                }
                self.fragments.set(i, frag);
                proof {
                    assert(final(self).fragments_view() =~= handle_spec(
                        old(self).modules_seq(),
                        old(self).fragments_view(),
                        msg,
                    ));
                }
                return Ok(());
            }
            i += 1;
        }
        assert(!has_key(self.modules@, msg.0));
        Err(Error::UnknownKey(msg.0))
    }

    /// Rebuilds the whole output line from the current fragments: every
    /// fragment in display order, separated by one space.
    pub fn render(&self) -> (r: String)
        ensures
            r@ == render_spec(self.fragments_view()),
    {
        let ghost fv = self.fragments_view();
        let n = self.fragments.len();
        let mut out = String::new();
        let mut i: usize = 0;
        proof {
            assert(fv.take(0) =~= Seq::<Seq<char>>::empty());
        }
        while i < n
            invariant
                i <= n,
                n == self.fragments@.len(),
                fv == self.fragments_view(),
                fv.len() == n,
                out@ == render_spec(fv.take(i as int)),
            decreases n - i,
        {
            let ghost out0 = out@;
            if i > 0 {
                push_char(&mut out, ' ');
            }
            out.append(self.fragments[i].as_str());
            proof {
                assert(fv.take(i + 1).drop_last() =~= fv.take(i as int));
                assert(fv.take(i + 1).last() == fv[i as int]);
                if i == 0 {
                    assert(out@ =~= render_spec(fv.take(1)));
                } else {
                    assert(out@ =~= render_spec(fv.take(i as int)) + seq![' '] + fv[i as int]);
                }
            }
            i += 1;
        }
        proof {
            assert(fv.take(n as int) =~= fv);
        }
        out
    }

    /// The number of registered modules (and, by `wf`, of fragments).
    pub fn len(&self) -> (r: usize)
        ensures
            r == self.modules_seq().len(),
    {
        self.modules.len()
    }
}

/// LAW: one message never changes the number of fragments.
pub proof fn lemma_handle_preserves_len(ms: Seq<ModuleSpec>, fs: Seq<Seq<char>>, msg: ModuleMsg)
    requires
        fs.len() == ms.len(),
    ensures
        handle_spec(ms, fs, msg).len() == ms.len(),
{
}

/// LAW: however many messages arrive, the fragment count stays the number
/// of registered modules, for the whole lifetime of the aggregator.
pub proof fn lemma_process_preserves_len(
    ms: Seq<ModuleSpec>,
    fs: Seq<Seq<char>>,
    msgs: Seq<ModuleMsg>,
)
    requires
        fs.len() == ms.len(),
    ensures
        process_spec(ms, fs, msgs).len() == ms.len(),
    decreases msgs.len(),
{
    if msgs.len() > 0 {
        lemma_handle_preserves_len(ms, fs, msgs[0]);
        lemma_process_preserves_len(ms, handle_spec(ms, fs, msgs[0]), msgs.drop_first());
    }
}

/// LAW: a module from which no message arrives keeps its current fragment
/// unchanged, indefinitely.  In particular, after a module's permanent
/// failure every later render still shows its last fragment.
pub proof fn lemma_silent_module_keeps_fragment(
    ms: Seq<ModuleSpec>,
    fs: Seq<Seq<char>>,
    msgs: Seq<ModuleMsg>,
    i: int,
)
    requires
        keys_unique(ms),
        fs.len() == ms.len(),
        0 <= i < ms.len(),
        forall|j: int| 0 <= j < msgs.len() ==> msgs[j].0 != ms[i].key,
    ensures
        process_spec(ms, fs, msgs)[i] == fs[i],
    decreases msgs.len(),
{
    if msgs.len() > 0 {
        let fs1 = handle_spec(ms, fs, msgs[0]);
        if has_key(ms, msgs[0].0) {
            let idx = index_of_key(ms, msgs[0].0);
            assert(0 <= idx < ms.len() && ms[idx].key == msgs[0].0);
            assert(idx != i);
        }
        assert(fs1[i] == fs[i]);
        assert(forall|j: int|
            0 <= j < msgs.drop_first().len() ==> #[trigger] msgs.drop_first()[j].0 != ms[i].key)
            by {
            assert(forall|j: int|
                0 <= j < msgs.drop_first().len() ==> msgs.drop_first()[j] == msgs[j + 1]);
        }
        lemma_silent_module_keeps_fragment(ms, fs1, msgs.drop_first(), i);
    }
}

/// LAW: a module that has never emitted a message shows exactly its
/// configured placeholder, whatever the other modules have sent.
pub proof fn lemma_silent_module_shows_placeholder(
    ms: Seq<ModuleSpec>,
    msgs: Seq<ModuleMsg>,
    i: int,
)
    requires
        keys_unique(ms),
        0 <= i < ms.len(),
        forall|j: int| 0 <= j < msgs.len() ==> msgs[j].0 != ms[i].key,
    ensures
        process_spec(ms, initial_fragments(ms), msgs)[i] == ms[i].placeholder@,
{
    lemma_silent_module_keeps_fragment(ms, initial_fragments(ms), msgs, i);
}

/// LAW: rendering is a pure function of the current fragments and the fixed
/// display order.  Two aggregator states that agree on both produce
/// byte-identical lines, regardless of the message arrival order that led
/// to them.
pub proof fn lemma_render_pure(a: Aggregator, b: Aggregator)
    requires
        a.modules_seq() == b.modules_seq(),
        a.fragments_view() == b.fragments_view(),
    ensures
        render_spec(a.fragments_view()) == render_spec(b.fragments_view()),
{
}

/// The latest message in `msgs` addressed to key `k`, if any.
pub open spec fn last_msg_for(msgs: Seq<ModuleMsg>, k: char) -> Option<ModuleMsg>
    decreases msgs.len(),
{
    if msgs.len() == 0 {
        None
    } else if msgs.last().0 == k {
        Some(msgs.last())
    } else {
        last_msg_for(msgs.drop_last(), k)
    }
}

/// Processing a sequence and then one more message is processing the
/// extended sequence.
pub proof fn lemma_process_snoc(
    ms: Seq<ModuleSpec>,
    fs: Seq<Seq<char>>,
    msgs: Seq<ModuleMsg>,
    m: ModuleMsg,
)
    ensures
        process_spec(ms, fs, msgs.push(m)) == handle_spec(ms, process_spec(ms, fs, msgs), m),
    decreases msgs.len(),
{
    if msgs.len() == 0 {
        assert(msgs.push(m)[0] == m);
        assert(msgs.push(m).drop_first() =~= Seq::<ModuleMsg>::empty());
        assert(process_spec(ms, fs, msgs.push(m)) == process_spec(
            ms,
            handle_spec(ms, fs, m),
            Seq::<ModuleMsg>::empty(),
        ));
        assert(process_spec(ms, handle_spec(ms, fs, m), Seq::<ModuleMsg>::empty()) == handle_spec(
            ms,
            fs,
            m,
        ));
        assert(process_spec(ms, fs, msgs) == fs);
    } else {
        let h = handle_spec(ms, fs, msgs[0]);
        assert(msgs.push(m)[0] == msgs[0]);
        assert(msgs.push(m).drop_first() =~= msgs.drop_first().push(m));
        assert(process_spec(ms, fs, msgs.push(m)) == process_spec(
            ms,
            h,
            msgs.drop_first().push(m),
        ));
        lemma_process_snoc(ms, h, msgs.drop_first(), m);
        assert(process_spec(ms, fs, msgs) == process_spec(ms, h, msgs.drop_first()));
    }
}

/// LAW: a module's fragment is decided by its own latest message alone.
/// However the other modules' messages interleave with it — however much
/// faster any of them emits — the module's entry, and with it its place in
/// the rendered line, shows exactly what its own last message said, or its
/// starting fragment if it has said nothing.
pub proof fn lemma_last_message_wins(
    ms: Seq<ModuleSpec>,
    fs: Seq<Seq<char>>,
    msgs: Seq<ModuleMsg>,
    i: int,
)
    requires
        keys_unique(ms),
        fs.len() == ms.len(),
        0 <= i < ms.len(),
    ensures
        process_spec(ms, fs, msgs)[i] == match last_msg_for(msgs, ms[i].key) {
            Some(m) => fragment_of(ms[i], m),
            None => fs[i],
        },
    decreases msgs.len(),
{
    if msgs.len() > 0 {
        let m = msgs.last();
        assert(msgs.drop_last().push(m) =~= msgs);
        lemma_process_snoc(ms, fs, msgs.drop_last(), m);
        lemma_last_message_wins(ms, fs, msgs.drop_last(), i);
        lemma_process_preserves_len(ms, fs, msgs.drop_last());
        if m.0 == ms[i].key {
            lemma_index_of_key(ms, m.0, i);
        } else {
            if has_key(ms, m.0) {
                let idx = index_of_key(ms, m.0);
                assert(0 <= idx < ms.len() && ms[idx].key == m.0);
                assert(idx != i);
            }
        }
    }
}

/// LAW: messages addressed to different modules commute.  A module's place
/// in the line and every other module's fragment do not depend on how fast
/// or in which interleaving the modules emit.
pub proof fn lemma_handle_commutes(
    ms: Seq<ModuleSpec>,
    fs: Seq<Seq<char>>,
    m1: ModuleMsg,
    m2: ModuleMsg,
)
    requires
        keys_unique(ms),
        fs.len() == ms.len(),
        m1.0 != m2.0,
    ensures
        handle_spec(ms, handle_spec(ms, fs, m1), m2) == handle_spec(ms, handle_spec(ms, fs, m2), m1),
{
    if has_key(ms, m1.0) && has_key(ms, m2.0) {
        let i1 = index_of_key(ms, m1.0);
        let i2 = index_of_key(ms, m2.0);
        assert(0 <= i1 < ms.len() && ms[i1].key == m1.0);
        assert(0 <= i2 < ms.len() && ms[i2].key == m2.0);
        assert(i1 != i2);
        assert(handle_spec(ms, handle_spec(ms, fs, m1), m2) =~= handle_spec(
            ms,
            handle_spec(ms, fs, m2),
            m1,
        ));
    } else {
        assert(handle_spec(ms, handle_spec(ms, fs, m1), m2) =~= handle_spec(
            ms,
            handle_spec(ms, fs, m2),
            m1,
        ));
    }
}

} // verus!
