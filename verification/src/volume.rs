//! The volume identifier of an ISO 9660 image.
//!
//! The Primary Volume Descriptor is the first descriptor of an image and
//! starts at byte 0x8000. Its volume identifier is the 32 bytes from 0x8028
//! on, padded with spaces at the end.
use vstd::prelude::*;
use vstd::string::StringSliceAdditionalSpecFns;
use vstd::utf8::encode_utf8;
use crate::error::BuildError;

verus! {

/// Where the Primary Volume Descriptor starts.
pub const DESCRIPTOR_OFFSET: usize = 0x8000;

/// Where the volume identifier starts.
pub const VOLUME_ID_OFFSET: usize = 0x8028;

/// How many bytes the volume identifier takes.
pub const VOLUME_ID_LEN: usize = 32;

/// The first byte after the volume identifier.
pub const VOLUME_ID_END: usize = 0x8048;

/// The byte that fills the identifier up: a space.
pub const PAD_BYTE: u8 = 0x20;

/// `count` spaces.
pub open spec fn padding(count: nat) -> Seq<u8> {
    Seq::new(count, |i: int| PAD_BYTE)
}

/// The identifier field that holds `label`: the label's bytes, then spaces up
/// to the width of the field.
pub open spec fn volume_id_field(label: Seq<u8>) -> Seq<u8>
    recommends
        label.len() <= VOLUME_ID_LEN,
{
    label + padding((VOLUME_ID_LEN - label.len()) as nat)
}

/// The image with `label` as its volume identifier. An image that ends
/// inside the field grows to hold all of it; no other byte changes.
pub open spec fn patched_image(image: Seq<u8>, label: Seq<u8>) -> Seq<u8>
    recommends
        image.len() >= VOLUME_ID_OFFSET,
        label.len() <= VOLUME_ID_LEN,
{
    Seq::new(
        if image.len() < VOLUME_ID_END { VOLUME_ID_END as nat } else { image.len() },
        |i: int|
            if VOLUME_ID_OFFSET <= i < VOLUME_ID_END {
                volume_id_field(label)[i - VOLUME_ID_OFFSET]
            } else {
                image[i]
            },
    )
}

/// What [`patch_image`] does to an image and what it answers.
pub open spec fn patch_outcome(image: Seq<u8>, label: Seq<u8>) -> (Seq<u8>, Result<(), BuildError>) {
    if image.len() < VOLUME_ID_OFFSET {
        (image, Err(BuildError::PatchFailed))
    } else {
        (patched_image(image, label), Ok(()))
    }
}

/// A volume label: at most 32 bytes.
#[derive(Debug, PartialEq, Eq)]
pub struct VolumeLabel {
    bytes: Vec<u8>,
}

impl View for VolumeLabel {
    type V = Seq<u8>;

    closed spec fn view(&self) -> Seq<u8> {
        self.bytes@
    }
}

impl Clone for VolumeLabel {
    fn clone(&self) -> (out: VolumeLabel)
        ensures
            out@ == self@,
    {
        proof {
            use_type_invariant(self);
        }
        VolumeLabel { bytes: self.bytes.clone() }
    }
}

impl VolumeLabel {
    #[verifier::type_invariant]
    spec fn fits(&self) -> bool {
        self.bytes@.len() <= VOLUME_ID_LEN
    }

    /// The label that holds `text` as UTF-8, unless that is more than 32
    /// bytes.
    pub fn new(text: &str) -> (r: Result<VolumeLabel, BuildError>)
        ensures
            match r {
                Ok(label) => label@ == encode_utf8(text@) && label@.len() <= VOLUME_ID_LEN,
                Err(e) => e == BuildError::LabelTooLong && encode_utf8(text@).len() > VOLUME_ID_LEN,
            },
    {
        VolumeLabel::from_bytes(text.as_bytes())
    }

    /// The label that holds `bytes`, unless they are more than 32.
    pub fn from_bytes(bytes: &[u8]) -> (r: Result<VolumeLabel, BuildError>)
        ensures
            match r {
                Ok(label) => label@ == bytes@ && label@.len() <= VOLUME_ID_LEN,
                Err(e) => e == BuildError::LabelTooLong && bytes@.len() > VOLUME_ID_LEN,
            },
    {
        if bytes.len() > VOLUME_ID_LEN {
            return Err(BuildError::LabelTooLong);
        }
        let mut held: Vec<u8> = Vec::new();
        let mut i: usize = 0;
        while i < bytes.len()
            invariant
                i <= bytes.len(),
                held@ == bytes@.take(i as int),
            decreases bytes.len() - i,
        {
            held.push(bytes[i]);
            i = i + 1;
        }
        assert(bytes@.take(bytes.len() as int) == bytes@);
        Ok(VolumeLabel { bytes: held })
    }

    /// The label without any byte.
    pub fn empty() -> (label: VolumeLabel)
        ensures
            label@ == Seq::<u8>::empty(),
    {
        VolumeLabel { bytes: Vec::new() }
    }

    /// The label's bytes, without padding.
    pub fn as_bytes(&self) -> (bytes: &[u8])
        ensures
            bytes@ == self@,
            bytes@.len() <= VOLUME_ID_LEN,
    {
        proof {
            use_type_invariant(self);
        }
        self.bytes.as_slice()
    }

    /// The 32 bytes of the identifier field that holds this label.
    pub fn field(&self) -> (field: Vec<u8>)
        ensures
            self@.len() <= VOLUME_ID_LEN,
            field@ == volume_id_field(self@),
            field@.len() == VOLUME_ID_LEN,
    {
        proof {
            use_type_invariant(self);
        }
        let mut field: Vec<u8> = Vec::new();
        let mut i: usize = 0;
        while i < VOLUME_ID_LEN
            invariant
                i <= VOLUME_ID_LEN,
                self.bytes@.len() <= VOLUME_ID_LEN,
                field@ == volume_id_field(self.bytes@).take(i as int),
            decreases VOLUME_ID_LEN - i,
        {
            if i < self.bytes.len() {
                field.push(self.bytes[i]);
            } else {
                field.push(PAD_BYTE);
            }
            i = i + 1;
        }
        assert(volume_id_field(self.bytes@).take(VOLUME_ID_LEN as int) == volume_id_field(
            self.bytes@,
        ));
        field
    }
}

/// Writes `label` into the volume identifier of the image held in `image`.
/// An image that ends before the identifier starts is no image to patch: it
/// is left as it is.
pub fn patch_image(image: &mut Vec<u8>, label: &VolumeLabel) -> (r: Result<(), BuildError>)
    ensures
        label@.len() <= VOLUME_ID_LEN,
        (final(image)@, r) == patch_outcome(old(image)@, label@),
{
    proof {
        use_type_invariant(label);
    }
    if image.len() < VOLUME_ID_OFFSET {
        return Err(BuildError::PatchFailed);
    }
    let field = label.field();
    let mut i: usize = 0;
    while i < VOLUME_ID_LEN
        invariant
            i <= VOLUME_ID_LEN,
            field@ == volume_id_field(label@),
            field@.len() == VOLUME_ID_LEN,
            old(image)@.len() >= VOLUME_ID_OFFSET,
            image@.len() == if old(image)@.len() < VOLUME_ID_OFFSET + i {
                VOLUME_ID_OFFSET + i
            } else {
                old(image)@.len() as int
            },
            forall|k: int|
                0 <= k < image@.len() ==> image@[k] == if VOLUME_ID_OFFSET <= k < VOLUME_ID_OFFSET
                    + i {
                    field@[k - VOLUME_ID_OFFSET]
                } else {
                    old(image)@[k]
                },
        decreases VOLUME_ID_LEN - i,
    {
        if VOLUME_ID_OFFSET + i < image.len() {
            image.set(VOLUME_ID_OFFSET + i, field[i]);
        } else {
            image.push(field[i]);
        }
        i = i + 1;
    }
    assert(image@ =~= patched_image(old(image)@, label@));
    Ok(())
}

/// The identifier field is always 32 bytes: the label's own bytes, in order,
/// and after them nothing but spaces.
pub proof fn lemma_field_is_label_then_spaces(label: Seq<u8>)
    requires
        label.len() <= VOLUME_ID_LEN,
    ensures
        volume_id_field(label).len() == VOLUME_ID_LEN,
        volume_id_field(label).subrange(0, label.len() as int) == label,
        forall|i: int|
            label.len() <= i < VOLUME_ID_LEN ==> #[trigger] volume_id_field(label)[i] == PAD_BYTE,
{
    assert(volume_id_field(label).subrange(0, label.len() as int) =~= label);
}

/// Patching puts the identifier field at its place and changes no byte
/// outside it; the image grows only where it ended inside the field.
pub proof fn lemma_patch_changes_only_the_field(image: Seq<u8>, label: Seq<u8>)
    requires
        image.len() >= VOLUME_ID_OFFSET,
        label.len() <= VOLUME_ID_LEN,
    ensures
        patched_image(image, label).len() >= VOLUME_ID_END,
        patched_image(image, label).len() >= image.len(),
        image.len() >= VOLUME_ID_END ==> patched_image(image, label).len() == image.len(),
        patched_image(image, label).subrange(VOLUME_ID_OFFSET as int, VOLUME_ID_END as int)
            == volume_id_field(label),
        forall|i: int|
            0 <= i < image.len() && !(VOLUME_ID_OFFSET <= i < VOLUME_ID_END) ==> #[trigger] patched_image(
                image,
                label,
            )[i] == image[i],
{
    assert(patched_image(image, label).subrange(VOLUME_ID_OFFSET as int, VOLUME_ID_END as int)
        =~= volume_id_field(label));
}

/// Of two patches the later one decides: the image is as if the earlier had
/// never been made. With the same label twice, the second patch changes
/// nothing.
pub proof fn lemma_last_patch_wins(image: Seq<u8>, earlier: Seq<u8>, later: Seq<u8>)
    requires
        image.len() >= VOLUME_ID_OFFSET,
        earlier.len() <= VOLUME_ID_LEN,
        later.len() <= VOLUME_ID_LEN,
    ensures
        patch_outcome(patch_outcome(image, earlier).0, later) == patch_outcome(image, later),
        patch_outcome(patch_outcome(image, later).0, later) == patch_outcome(image, later),
{
    assert(patched_image(patched_image(image, earlier), later) =~= patched_image(image, later));
    assert(patched_image(patched_image(image, later), later) =~= patched_image(image, later));
}

} // verus!
