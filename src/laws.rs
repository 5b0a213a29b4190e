//! Properties of the transition function and the generation chain.
use vstd::prelude::*;
use crate::app::{active_secret, next_effect, next_state, snapshot, AppView};
use crate::generate::{chain_messages, outcome_view, validation_warnings};
use crate::model::{EffectView, MessageView};

verus! {

/// The state after a sequence of messages, applied in order.
pub open spec fn run(s: AppView, ms: Seq<MessageView>) -> AppView
    decreases ms.len(),
{
    if ms.len() == 0 {
        s
    } else {
        next_state(run(s, ms.drop_last()), ms.last())
    }
}

/// `n` generation requests in a row.
pub open spec fn generate_requests(n: nat) -> Seq<MessageView> {
    Seq::new(n, |i: int| MessageView::GeneratePdf)
}

/// While a generation is in flight, any number of further generation
/// requests is dropped: the state stays as it was and no effect is asked for.
pub proof fn lemma_requests_dropped_while_generating(s: AppView, n: nat)
    requires
        s.is_generating,
    ensures
        run(s, generate_requests(n)) == s,
        next_effect(run(s, generate_requests(n)), MessageView::GeneratePdf) is None,
    decreases n,
{
    if n > 0 {
        assert(generate_requests(n).drop_last() =~= generate_requests((n - 1) as nat));
        lemma_requests_dropped_while_generating(s, (n - 1) as nat);
    }
}

/// An accepted generation request asks for one generation chain on the
/// current form, and that chain ends with exactly one `GenerateDone`, which
/// leaves no generation in flight, whichever branch the flow took.
pub proof fn lemma_generation_finishes_once(s: AppView, ms: Seq<MessageView>)
    requires
        !s.is_generating,
        chain_messages(snapshot(s), ms),
    ensures
        next_effect(s, MessageView::GeneratePdf) == Some(EffectView::Generate(snapshot(s))),
        next_state(s, MessageView::GeneratePdf).is_generating,
        ms.last() == MessageView::GenerateDone,
        forall|i: int| 0 <= i < ms.len() - 1 ==> ms[i] != MessageView::GenerateDone,
        !run(next_state(s, MessageView::GeneratePdf), ms).is_generating,
{
    let r = snapshot(s);
    let mid = ms.subrange(1, ms.len() - 1);
    if validation_warnings(r).len() == 0 {
        let res = choose|res: Result<Seq<u8>, Seq<char>>| mid == outcome_view(res);
        assert(mid == outcome_view(res));
    }
    assert forall|i: int| 0 <= i < ms.len() - 1 implies ms[i] != MessageView::GenerateDone by {
        if i > 0 {
            assert(ms[i] == mid[i - 1]);
        }
    }
}

/// The first message of an accepted request's generation chain clears all
/// three warnings, from any state, and sets none: every warning of an earlier
/// attempt is gone before the new attempt sets one.
pub proof fn lemma_chain_clears_warnings_first(s: AppView, ms: Seq<MessageView>, t: AppView)
    requires
        !s.is_generating,
        chain_messages(snapshot(s), ms),
    ensures
        ms[0] == MessageView::ResetWarning,
        next_state(t, ms[0]).secret_warning is None,
        next_state(t, ms[0]).passphrase_warning is None,
        next_state(t, ms[0]).generate_warning is None,
{
}

/// When the active secret is missing or empty and the passphrase is empty,
/// the accepted request's chain leaves both the secret and the passphrase
/// warning set, and never reaches the generator: it emits neither a
/// document nor a generation warning.
pub proof fn lemma_both_invalid_both_warned(s: AppView, ms: Seq<MessageView>)
    requires
        !s.is_generating,
        active_secret(s) is None || active_secret(s).unwrap().len() == 0,
        s.passphrase.len() == 0,
        chain_messages(snapshot(s), ms),
    ensures
        run(next_state(s, MessageView::GeneratePdf), ms).secret_warning is Some,
        run(next_state(s, MessageView::GeneratePdf), ms).passphrase_warning is Some,
        forall|i: int|
            0 <= i < ms.len() ==> !(ms[i] is SaveSecretPdf) && !(ms[i] is GenerateWarning),
{
    let v = validation_warnings(snapshot(s));
    assert(v.len() == 2);
    let mid = ms.subrange(1, ms.len() - 1);
    assert(mid == v);
    assert(ms =~= seq![ms[0], v[0], v[1], ms[3]]);
    let t = next_state(s, MessageView::GeneratePdf);
    let m3 = ms.drop_last();
    let m2 = m3.drop_last();
    let m1 = m2.drop_last();
    assert(m3 =~= seq![ms[0], v[0], v[1]]);
    assert(m2 =~= seq![ms[0], v[0]]);
    assert(m1 =~= seq![ms[0]]);
    assert(m1.drop_last() =~= Seq::<MessageView>::empty());
    assert(run(t, m1.drop_last()) == t);
    assert(m1.last() == ms[0]);
    assert(run(t, m1) == next_state(t, ms[0]));
    assert(run(t, m2) == next_state(run(t, m1), v[0]));
    assert(run(t, m3) == next_state(run(t, m2), v[1]));
    assert(run(t, ms) == next_state(run(t, m3), ms[3]));
}

/// Selecting the secret source keeps both the inline text and the loaded
/// file; it only changes which of them a generation reads.
pub proof fn lemma_toggle_keeps_secrets(s: AppView, b: bool)
    ensures
        next_state(s, MessageView::ToggleSecretSource(b)).secret_content == s.secret_content,
        next_state(s, MessageView::ToggleSecretSource(b)).secret_file_content
            == s.secret_file_content,
        next_state(s, MessageView::ToggleSecretSource(b)).secret_file_name == s.secret_file_name,
        b ==> active_secret(next_state(s, MessageView::ToggleSecretSource(b)))
            == s.secret_file_content,
        next_effect(s, MessageView::ToggleSecretSource(b)) is None,
{
}

} // verus!
