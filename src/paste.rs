use vstd::prelude::*;

use crate::keys::{GlobalEvent, Key};

verus! {

/// The pause, in milliseconds, before each synthetic key event; twice this
/// follows it.
pub const PASTE_DELAY_MS: u64 = 20;

/// One step of the paste keystroke.
#[derive(Clone, Copy, Debug, PartialEq, Eq, Structural)]
pub enum PasteStep {
    /// Sleep this many milliseconds.
    Wait(u64),
    /// Inject this key event into the operating system.
    Send(GlobalEvent),
}

/// The key events of the paste keystroke: Ctrl down, V down, V up, Ctrl up.
pub open spec fn paste_keys() -> Seq<GlobalEvent> {
    seq![
        GlobalEvent::KeyPress(Key::ControlLeft),
        GlobalEvent::KeyPress(Key::KeyV),
        GlobalEvent::KeyRelease(Key::KeyV),
        GlobalEvent::KeyRelease(Key::ControlLeft),
    ]
}

/// One key event with its pauses.
pub open spec fn paced(event: GlobalEvent) -> Seq<PasteStep> {
    seq![
        PasteStep::Wait(PASTE_DELAY_MS),
        PasteStep::Send(event),
        PasteStep::Wait((2 * PASTE_DELAY_MS) as u64),
    ]
}

/// The whole keystroke: each key event of `paste_keys`, paced, in order.
pub open spec fn paste_plan() -> Seq<PasteStep> {
    paced(paste_keys()[0]) + paced(paste_keys()[1]) + paced(paste_keys()[2]) + paced(
        paste_keys()[3],
    )
}

/// The key events that a run of steps injects, in order.
pub open spec fn sent(steps: Seq<PasteStep>) -> Seq<GlobalEvent>
    decreases steps.len(),
{
    if steps.len() == 0 {
        Seq::empty()
    } else {
        let rest = sent(steps.drop_last());
        match steps.last() {
            PasteStep::Send(event) => rest.push(event),
            PasteStep::Wait(_) => rest,
        }
    }
}

proof fn lemma_sent_append(a: Seq<PasteStep>, b: Seq<PasteStep>)
    ensures
        sent(a + b) == sent(a) + sent(b),
    decreases b.len(),
{
    if b.len() == 0 {
        assert(a + b =~= a);
        assert(sent(b) + Seq::empty() =~= sent(b));
        assert(sent(a) + sent(b) =~= sent(a));
    } else {
        lemma_sent_append(a, b.drop_last());
        assert((a + b).drop_last() =~= a + b.drop_last());
        assert((a + b).last() == b.last());
        match b.last() {
            PasteStep::Send(event) => {
                assert(sent(a) + sent(b.drop_last()).push(event) =~= (sent(a) + sent(
                    b.drop_last(),
                )).push(event));
            },
            PasteStep::Wait(_) => {},
        }
    }
}

proof fn lemma_sent_paced(event: GlobalEvent)
    ensures
        sent(paced(event)) == seq![event],
{
    let steps = paced(event);
    let two = steps.drop_last();
    let one = two.drop_last();
    assert(two =~= seq![PasteStep::Wait(PASTE_DELAY_MS), PasteStep::Send(event)]);
    assert(one =~= seq![PasteStep::Wait(PASTE_DELAY_MS)]);
    assert(one.drop_last() =~= Seq::<PasteStep>::empty());
    assert(sent(one.drop_last()) =~= Seq::<GlobalEvent>::empty());
    assert(sent(one) =~= Seq::<GlobalEvent>::empty());
    assert(sent(two) =~= seq![event]);
}

/// The keystroke injects exactly the four key events of a paste, in order:
/// Ctrl down, V down, V up, Ctrl up.
pub proof fn lemma_paste_plan_sends_paste_keys()
    ensures
        sent(paste_plan()) == paste_keys(),
{
    let k = paste_keys();
    lemma_sent_paced(k[0]);
    lemma_sent_paced(k[1]);
    lemma_sent_paced(k[2]);
    lemma_sent_paced(k[3]);
    lemma_sent_append(paced(k[0]), paced(k[1]));
    lemma_sent_append(paced(k[0]) + paced(k[1]), paced(k[2]));
    lemma_sent_append(paced(k[0]) + paced(k[1]) + paced(k[2]), paced(k[3]));
    assert(seq![k[0]] + seq![k[1]] + seq![k[2]] + seq![k[3]] =~= k);
}

/// The steps of the paste keystroke, for the caller to run in order.
pub fn paste_sequence() -> (r: Vec<PasteStep>)
    ensures
        r@ == paste_plan(),
{
    let keys = [
        GlobalEvent::KeyPress(Key::ControlLeft),
        GlobalEvent::KeyPress(Key::KeyV),
        GlobalEvent::KeyRelease(Key::KeyV),
        GlobalEvent::KeyRelease(Key::ControlLeft),
    ];
    let mut steps: Vec<PasteStep> = Vec::new();
    let mut i: usize = 0;
    while i < 4
        invariant
            0 <= i <= 4,
            keys@ == paste_keys(),
            steps@ == (if i == 0 {
                Seq::empty()
            } else if i == 1 {
                paced(paste_keys()[0])
            } else if i == 2 {
                paced(paste_keys()[0]) + paced(paste_keys()[1])
            } else if i == 3 {
                paced(paste_keys()[0]) + paced(paste_keys()[1]) + paced(paste_keys()[2])
            } else {
                paste_plan()
            }),
        decreases 4 - i,
    {
        let ghost before = steps@;
        steps.push(PasteStep::Wait(PASTE_DELAY_MS));
        steps.push(PasteStep::Send(keys[i]));
        steps.push(PasteStep::Wait(2 * PASTE_DELAY_MS));
        assert(steps@ =~= before + paced(paste_keys()[i as int]));
        i = i + 1;
    }
    steps
}

} // verus!
