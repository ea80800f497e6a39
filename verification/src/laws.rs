use vstd::prelude::*;

use crate::annotate::{erase_default, lemma_filter_push};
use crate::model::{DelegationSpecV, ImplBlockV, ImplItemV, ReceiverKind, TraitDeclV, TraitItemV};
use crate::synth::{
    forward_const, forward_fn, forward_rc_fn, forward_type, has_const, has_fn, has_rc_attr,
    has_type, recv_tokens, self_field_tokens, spec_synthesize, synth_item, synth_items,
};
use crate::token::TokV;

verus! {

/// Whether a synthesized item would bear the kind and name of an item the
/// implementation block already supplies.
pub open spec fn shadows_supplied(it: ImplItemV, supplied: Seq<ImplItemV>) -> bool {
    match it {
        ImplItemV::Const { name, .. } => has_const(supplied, name),
        ImplItemV::Fn { sig, .. } => has_fn(supplied, sig.name),
        ImplItemV::Type { name, .. } => has_type(supplied, name),
    }
}

proof fn lemma_synth_items_no_shadow(
    items: Seq<TraitItemV>,
    impls: Seq<ImplItemV>,
    tn: Seq<char>,
    field: Seq<char>,
    inner_ty: Seq<TokV>,
)
    ensures
        forall|j: int|
            0 <= j < synth_items(items, impls, tn, field, inner_ty).len() ==> !shadows_supplied(
                #[trigger] synth_items(items, impls, tn, field, inner_ty)[j],
                impls,
            ),
    decreases items.len(),
{
    if items.len() > 0 {
        let dl = items.drop_last();
        let last = items.last();
        lemma_synth_items_no_shadow(dl, impls, tn, field, inner_ty);
        let s = synth_items(items, impls, tn, field, inner_ty);
        let sdl = synth_items(dl, impls, tn, field, inner_ty);
        let si = synth_item(last, impls, tn, field, inner_ty);
        assert forall|j: int| 0 <= j < s.len() implies !shadows_supplied(s[j], impls) by {
            if j < sdl.len() {
                assert(s[j] == sdl[j]);
            } else {
                assert(s[j] == si[j - sdl.len()]);
                assert(!shadows_supplied(si[j - sdl.len()], impls));
            }
        }
    }
}

/// Idempotence of explicit override: whatever items the implementation block
/// supplies stand unchanged at the front of the completed block, and no
/// synthesized item repeats a supplied item's kind and name.
pub proof fn lemma_explicit_override_idempotent(
    tr: TraitDeclV,
    d: DelegationSpecV,
    ib: ImplBlockV,
)
    ensures
        spec_synthesize(tr, d, ib).items.take(ib.items.len() as int) == ib.items,
        forall|j: int|
            ib.items.len() <= j < spec_synthesize(tr, d, ib).items.len() ==> !shadows_supplied(
                #[trigger] spec_synthesize(tr, d, ib).items[j],
                ib.items,
            ),
{
    assert(spec_synthesize(tr, d, ib).items.take(ib.items.len() as int) =~= ib.items);
    lemma_synth_items_no_shadow(tr.items, ib.items, tr.name, d.field, d.inner_ty);
}

/// Whether a trait item, held against the supplied items, receives a
/// forwarding definition.
pub open spec fn forwardable(it: TraitItemV, impls: Seq<ImplItemV>) -> bool {
    match it {
        TraitItemV::Const { name, .. } => !has_const(impls, name),
        TraitItemV::Type { name, .. } => !has_type(impls, name),
        TraitItemV::Fn { attrs, sig, .. } => !has_fn(impls, sig.name) && (has_rc_attr(attrs) || (
        sig.receiver == ReceiverKind::ByValue || sig.receiver == ReceiverKind::ByRef
            || sig.receiver == ReceiverKind::ByMutRef)),
    }
}

/// The forwarding definition of one forwardable trait item.
pub open spec fn forward_of(
    it: TraitItemV,
    tn: Seq<char>,
    field: Seq<char>,
    inner_ty: Seq<TokV>,
) -> ImplItemV
    recommends
        it is Const || it is Type || it is Fn,
{
    match it {
        TraitItemV::Const { name, ty, .. } => forward_const(name, ty, inner_ty),
        TraitItemV::Type { name, .. } => forward_type(name, inner_ty),
        TraitItemV::Fn { attrs, sig, .. } => if has_rc_attr(attrs) {
            forward_rc_fn(sig, tn, field)
        } else {
            forward_fn(sig, tn, field)
        },
    }
}

proof fn lemma_synth_items_filter_map(
    items: Seq<TraitItemV>,
    impls: Seq<ImplItemV>,
    tn: Seq<char>,
    field: Seq<char>,
    inner_ty: Seq<TokV>,
)
    ensures
        synth_items(items, impls, tn, field, inner_ty) == items.filter(
            |it: TraitItemV| forwardable(it, impls),
        ).map_values(|it: TraitItemV| forward_of(it, tn, field, inner_ty)),
    decreases items.len(),
{
    let pred = |it: TraitItemV| forwardable(it, impls);
    let f = |it: TraitItemV| forward_of(it, tn, field, inner_ty);
    if items.len() == 0 {
        reveal(Seq::filter);
        assert(items.filter(pred).map_values(f) =~= Seq::<ImplItemV>::empty());
    } else {
        let dl = items.drop_last();
        let last = items.last();
        lemma_synth_items_filter_map(dl, impls, tn, field, inner_ty);
        assert(items =~= dl.push(last));
        lemma_filter_push(dl, pred, last);
        if pred(last) {
            assert(synth_item(last, impls, tn, field, inner_ty) =~= seq![f(last)]);
            assert(dl.filter(pred).push(last).map_values(f) =~= dl.filter(pred).map_values(
                f,
            ).push(f(last)));
            assert(synth_items(items, impls, tn, field, inner_ty) =~= items.filter(
                pred,
            ).map_values(f));
        } else {
            assert(synth_item(last, impls, tn, field, inner_ty) =~= Seq::<ImplItemV>::empty());
            assert(synth_items(items, impls, tn, field, inner_ty) =~= items.filter(
                pred,
            ).map_values(f));
        }
    }
}

/// Completeness: the completed block is exactly the supplied items, in their
/// order, followed by one forwarding definition for each forwardable trait
/// item not supplied, in trait order, and nothing else.
pub proof fn lemma_completeness(tr: TraitDeclV, d: DelegationSpecV, ib: ImplBlockV)
    ensures
        spec_synthesize(tr, d, ib).items == ib.items + tr.items.filter(
            |it: TraitItemV| forwardable(it, ib.items),
        ).map_values(|it: TraitItemV| forward_of(it, tr.name, d.field, d.inner_ty)),
{
    lemma_synth_items_filter_map(tr.items, ib.items, tr.name, d.field, d.inner_ty);
}

proof fn lemma_synth_items_default_free(
    items: Seq<TraitItemV>,
    impls: Seq<ImplItemV>,
    tn: Seq<char>,
    field: Seq<char>,
    inner_ty: Seq<TokV>,
)
    ensures
        synth_items(
            items.map_values(|it: TraitItemV| erase_default(it)),
            impls,
            tn,
            field,
            inner_ty,
        ) == synth_items(items, impls, tn, field, inner_ty),
    decreases items.len(),
{
    let f = |it: TraitItemV| erase_default(it);
    if items.len() == 0 {
        assert(items.map_values(f) =~= items);
    } else {
        let dl = items.drop_last();
        lemma_synth_items_default_free(dl, impls, tn, field, inner_ty);
        assert(items.map_values(f).drop_last() =~= dl.map_values(f));
        assert(items.map_values(f).last() == f(items.last()));
        assert(items.map_values(f).len() == items.len());
        assert(synth_item(f(items.last()), impls, tn, field, inner_ty) == synth_item(
            items.last(),
            impls,
            tn,
            field,
            inner_ty,
        ));
    }
}

/// Default erasure: synthesis reads nothing from a trait item's default body
/// or value, so the completed block for a trait equals the completed block
/// for the same trait with every default erased — a forwarded item always
/// targets the delegate, never the trait's own default.
pub proof fn lemma_default_erasure(tr: TraitDeclV, d: DelegationSpecV, ib: ImplBlockV)
    ensures
        spec_synthesize(
            TraitDeclV {
                items: tr.items.map_values(|it: TraitItemV| erase_default(it)),
                ..tr
            },
            d,
            ib,
        ) == spec_synthesize(tr, d, ib),
{
    lemma_synth_items_default_free(tr.items, ib.items, tr.name, d.field, d.inner_ty);
    assert(spec_synthesize(
        TraitDeclV { items: tr.items.map_values(|it: TraitItemV| erase_default(it)), ..tr },
        d,
        ib,
    ) =~= spec_synthesize(tr, d, ib));
}

/// Receiver-shape correctness: the forwarded call passes `self.field` for a
/// by-value receiver, `&self.field` for a reference receiver, and
/// `&mut self.field` for a mutable-reference receiver; a function with no
/// receiver, or with an unsupported one, synthesizes nothing.
pub proof fn lemma_receiver_shape(
    it: TraitItemV,
    impls: Seq<ImplItemV>,
    tn: Seq<char>,
    field: Seq<char>,
    inner_ty: Seq<TokV>,
)
    requires
        it matches TraitItemV::Fn { attrs, .. } && !has_rc_attr(attrs),
    ensures
        recv_tokens(ReceiverKind::ByValue, field) == self_field_tokens(field),
        recv_tokens(ReceiverKind::ByRef, field) == seq![TokV::Punct { ch: '&' }]
            + self_field_tokens(field),
        recv_tokens(ReceiverKind::ByMutRef, field) == seq![
            TokV::Punct { ch: '&' },
            TokV::Ident { name: "mut"@ },
        ] + self_field_tokens(field),
        (it->Fn_sig.receiver == ReceiverKind::Absent || it->Fn_sig.receiver
            == ReceiverKind::Unsupported) ==> synth_item(it, impls, tn, field, inner_ty)
            == Seq::<ImplItemV>::empty(),
{
}

/// Empty trait: a trait with no items synthesizes nothing, and the completed
/// block is exactly the supplied one.
pub proof fn lemma_empty_trait(tr: TraitDeclV, d: DelegationSpecV, ib: ImplBlockV)
    requires
        tr.items.len() == 0,
    ensures
        spec_synthesize(tr, d, ib) == ib,
{
    assert(ib.items + synth_items(tr.items, ib.items, tr.name, d.field, d.inner_ty) =~= ib.items);
    assert(spec_synthesize(tr, d, ib) =~= ib);
}

} // verus!
