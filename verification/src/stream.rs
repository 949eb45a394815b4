//! The target-neutral contract of an instruction stream.

use crate::entity::{EntityRef, Label, LabelRef};
use crate::product::Product;
use vstd::prelude::*;

verus! {

/// The low `width` bytes of `value`, least significant byte first.
pub open spec fn little_endian(value: nat, width: nat) -> Seq<u8>
    decreases width,
{
    if width == 0 {
        Seq::empty()
    } else {
        seq![(value % 256) as u8] + little_endian(value / 256, (width - 1) as nat)
    }
}

/// The registry after a new, unattached label has been created in `labels`.
pub open spec fn with_label(labels: Seq<Label>) -> Seq<Label> {
    labels.push(Label::Unattached)
}

/// The registry after a new label has been created in `labels` and attached on the spot: it
/// is bound to the number of labels that there were before it.
pub open spec fn with_label_attached(labels: Seq<Label>) -> Seq<Label> {
    labels.push(Label::Attached(labels.len() as usize))
}

/// The registry after the label in slot `slot` of `labels` has been attached: whatever its
/// state was, it is now bound to the number of labels in the registry.
pub open spec fn with_attachment(labels: Seq<Label>, slot: int) -> Seq<Label>
    recommends
        0 <= slot < labels.len(),
{
    labels.update(slot, Label::Attached(labels.len() as usize))
}

/// A label created plain starts unattached, and one created attached starts attached at the
/// number of labels that there were before it.  Either way the new label takes the next free
/// slot and the labels before it stay as they were.
pub proof fn lemma_creation(labels: Seq<Label>)
    ensures
        with_label(labels).len() == labels.len() + 1,
        with_label(labels)[labels.len() as int] == Label::Unattached,
        with_label(labels).take(labels.len() as int) == labels,
        with_label_attached(labels).len() == labels.len() + 1,
        with_label_attached(labels)[labels.len() as int] == Label::Attached(labels.len() as usize),
        with_label_attached(labels).take(labels.len() as int) == labels,
{
    assert(with_label(labels).take(labels.len() as int) =~= labels);
    assert(with_label_attached(labels).take(labels.len() as int) =~= labels);
}

/// Attaching a label leaves it attached at the number of labels in the registry, and changes
/// neither any other label nor that number.
pub proof fn lemma_attachment(labels: Seq<Label>, slot: int)
    requires
        0 <= slot < labels.len(),
    ensures
        with_attachment(labels, slot).len() == labels.len(),
        with_attachment(labels, slot)[slot] == Label::Attached(labels.len() as usize),
        forall|other: int|
            0 <= other < labels.len() && other != slot ==> #[trigger] with_attachment(
                labels,
                slot,
            )[other] == labels[other],
{
}

/// Attaching the same label twice in a row, with no label created in between, binds it to
/// the same offset both times: the second attachment changes nothing.
pub proof fn lemma_attachment_idempotent(labels: Seq<Label>, slot: int)
    requires
        0 <= slot < labels.len(),
    ensures
        with_attachment(with_attachment(labels, slot), slot) == with_attachment(labels, slot),
        with_attachment(with_attachment(labels, slot), slot)[slot] == with_attachment(
            labels,
            slot,
        )[slot],
{
    assert(with_attachment(with_attachment(labels, slot), slot) =~= with_attachment(
        labels,
        slot,
    ));
}

/// A target-specific stream of instructions.
///
/// An instruction stream takes instructions and immediately encodes them into machine code
/// for its target architecture.  Relocation is performed later.
pub trait InstructionStream {
    /// The bytes written to the stream so far.
    spec fn emitted(&self) -> Seq<u8>;

    /// The state of every label of the stream, in order of creation.
    spec fn label_states(&self) -> Seq<Label>;

    /// The low `width` bytes of `value` in the byte order of the target.
    spec fn native_bytes(value: nat, width: nat) -> Seq<u8>;

    /// Whatever the byte order, a value of `width` bytes takes `width` bytes.
    proof fn native_bytes_len(value: nat, width: nat)
        ensures
            Self::native_bytes(value, width).len() == width,
    ;

    /// Creates a new label.
    ///
    /// The label is created without being attached to any index.  If the label is used
    /// before it is attached, it stands for a relocation rather than a known offset.
    fn create_label(&mut self) -> (r: LabelRef)
        ensures
            final(self).label_states() == with_label(old(self).label_states()),
            final(self).emitted() == old(self).emitted(),
            r == LabelRef::from_index(old(self).label_states().len() as usize),
            old(self).label_states().len() <= u32::MAX ==> r.index() == old(
                self,
            ).label_states().len(),
    ;

    /// Creates a new label and attaches it to the current index.
    fn create_label_attached(&mut self) -> (r: LabelRef)
        ensures
            final(self).label_states() == with_label_attached(old(self).label_states()),
            final(self).emitted() == old(self).emitted(),
            r == LabelRef::from_index(old(self).label_states().len() as usize),
            old(self).label_states().len() <= u32::MAX ==> r.index() == old(
                self,
            ).label_states().len(),
    ;

    /// Attaches a label to the current index.
    ///
    /// This overwrites any previous state of the label at the provided reference.
    fn attach_label(&mut self, label: LabelRef)
        requires
            label.index() < old(self).label_states().len(),
        ensures
            final(self).label_states() == with_attachment(
                old(self).label_states(),
                label.index() as int,
            ),
            final(self).emitted() == old(self).emitted(),
    ;

    /// Writes a raw byte into the instruction stream at the current index.
    fn write_byte(&mut self, byte: u8)
        ensures
            final(self).emitted() == old(self).emitted().push(byte),
            final(self).label_states() == old(self).label_states(),
    ;

    /// Writes a raw word into the instruction stream at the current index, in the byte
    /// order of the target.
    fn write_word(&mut self, word: u16)
        ensures
            final(self).emitted() == old(self).emitted() + Self::native_bytes(word as nat, 2),
            final(self).label_states() == old(self).label_states(),
    ;

    /// Writes a raw double word into the instruction stream at the current index, in the
    /// byte order of the target.
    fn write_double_word(&mut self, word: u32)
        ensures
            final(self).emitted() == old(self).emitted() + Self::native_bytes(word as nat, 4),
            final(self).label_states() == old(self).label_states(),
    ;

    /// Writes a raw quadruple word into the instruction stream at the current index, in
    /// the byte order of the target.
    fn write_quad_word(&mut self, word: u64)
        ensures
            final(self).emitted() == old(self).emitted() + Self::native_bytes(word as nat, 8),
            final(self).label_states() == old(self).label_states(),
    ;

    /// Writes a raw double quadruple word into the instruction stream at the current
    /// index, in the byte order of the target.
    fn write_double_quad_word(&mut self, word: u128)
        ensures
            final(self).emitted() == old(self).emitted() + Self::native_bytes(word as nat, 16),
            final(self).label_states() == old(self).label_states(),
    ;

    /// Finishes writing to the instruction stream and returns the produced bytes.
    fn finish(self) -> (r: Product)
        ensures
            r@ == self.emitted(),
    ;
}

} // verus!
