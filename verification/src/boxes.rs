//! The box tree: every node of an AVIF container.
//!
//! Each box knows two things about itself, both stated in spec land: the
//! exact byte sequence it serializes to (`spec_bytes`) and that sequence's
//! length (`spec_len`), computed without emitting anything. The executable
//! `len` and `write` are proved against them, so for every box the number of
//! bytes `write` appends equals what `len` reported — the load-bearing
//! invariant of the whole serializer.

use vstd::prelude::*;

verus! {

use vstd::string::StringSliceAdditionalSpecFns;
use crate::moov::MoovBox;
use crate::moov::TrakBox;
use crate::moov::tracks_suffix_total;
use crate::moov::track_sample_total;
use crate::moov::stco_fixed_tracks;
use crate::moov::upd_stco;
use crate::moov::stsz_total;
use crate::moov::lemma_suffix_total_bound;
use crate::moov::lemma_upd_stco_len;
use crate::writer::spec_u16_be;
use crate::writer::spec_u32_be;
use crate::writer::spec_version_flags;
use crate::writer::push_u8;
use crate::writer::push_u16;
use crate::writer::push_u32;
use crate::writer::push_bytes;
use crate::writer::push_box_header;
use crate::writer::push_full_box_header;

pub const BASIC_BOX_SIZE: usize = 8;

pub const FULL_BOX_SIZE: usize = 12;

/// A serializable node of the container tree.
///
/// `spec_bytes` is the byte sequence the node stands for; `spec_len` is its
/// length, defined independently so that sizes can be computed bottom-up
/// before any byte exists. `lemma_bytes_len` ties the two together.
pub trait MpegBox: Sized {
    /// Structural soundness needed before writing (e.g. resolved offsets).
    spec fn wf(&self) -> bool;

    /// The exact serialized length, header included.
    spec fn spec_len(&self) -> nat;

    /// The exact serialized bytes.
    spec fn spec_bytes(&self) -> Seq<u8>;

    /// The serialized bytes are as many as `spec_len` says.
    proof fn lemma_bytes_len(&self)
        ensures
            self.spec_bytes().len() == self.spec_len(),
    ;

    /// Reports the serialized length without writing.
    fn len(&self) -> (r: usize)
        requires
            self.spec_len() <= u32::MAX,
        ensures
            r == self.spec_len(),
    ;

    /// Appends exactly the serialized bytes of this box to `out`.
    fn write(&self, out: &mut Vec<u8>)
        requires
            self.wf(),
            self.spec_len() <= u32::MAX,
        ensures
            final(out)@ == old(out)@ + self.spec_bytes(),
    ;
}

/// Total serialized length of a sequence of boxes.
pub open spec fn boxes_len<B: MpegBox>(s: Seq<B>) -> nat
    decreases s.len(),
{
    if s.len() == 0 {
        0
    } else {
        boxes_len(s.drop_last()) + s.last().spec_len()
    }
}

/// Concatenated serialized bytes of a sequence of boxes, in order.
pub open spec fn boxes_bytes<B: MpegBox>(s: Seq<B>) -> Seq<u8>
    decreases s.len(),
{
    if s.len() == 0 {
        Seq::empty()
    } else {
        boxes_bytes(s.drop_last()) + s.last().spec_bytes()
    }
}

/// Every box of the sequence is fit to write.
pub open spec fn boxes_wf<B: MpegBox>(s: Seq<B>) -> bool {
    forall|i: int| 0 <= i < s.len() ==> (#[trigger] s[i]).wf()
}

pub proof fn lemma_boxes_bytes_len<B: MpegBox>(s: Seq<B>)
    ensures
        boxes_bytes(s).len() == boxes_len(s),
    decreases s.len(),
{
    if s.len() > 0 {
        lemma_boxes_bytes_len(s.drop_last());
        s.last().lemma_bytes_len();
    }
}

/// One element never outweighs the whole sequence.
pub proof fn lemma_boxes_len_elem<B: MpegBox>(s: Seq<B>, i: int)
    requires
        0 <= i < s.len(),
    ensures
        s[i].spec_len() <= boxes_len(s),
    decreases s.len(),
{
    if i < s.len() - 1 {
        lemma_boxes_len_elem(s.drop_last(), i);
    }
}

/// A prefix never outweighs the whole sequence.
pub proof fn lemma_boxes_len_prefix<B: MpegBox>(s: Seq<B>, i: int)
    requires
        0 <= i <= s.len(),
    ensures
        boxes_len(s.subrange(0, i)) <= boxes_len(s),
    decreases s.len() - i,
{
    if i == s.len() {
        assert(s.subrange(0, i) =~= s);
    } else {
        lemma_boxes_len_prefix(s, i + 1);
        lemma_boxes_step(s, i);
    }
}

/// Extending a prefix by one element extends its length and bytes by that
/// element's.
pub proof fn lemma_boxes_step<B: MpegBox>(s: Seq<B>, i: int)
    requires
        0 <= i < s.len(),
    ensures
        boxes_len(s.subrange(0, i + 1)) == boxes_len(s.subrange(0, i)) + s[i].spec_len(),
        boxes_bytes(s.subrange(0, i + 1)) == boxes_bytes(s.subrange(0, i)) + s[i].spec_bytes(),
{
    assert(s.subrange(0, i + 1).drop_last() =~= s.subrange(0, i));
    assert(s.subrange(0, i + 1).last() == s[i]);
}

/// Sums the serialized lengths of all boxes in `items`.
pub fn boxes_total_len<B: MpegBox>(items: &Vec<B>) -> (r: usize)
    requires
        boxes_len(items@) <= u32::MAX,
    ensures
        r == boxes_len(items@),
{
    let ghost s = items@;
    let n = items.len();
    let mut total: usize = 0;
    let mut i: usize = 0;
    while i < n
        invariant
            n == s.len(),
            s == items@,
            i <= n,
            boxes_len(s) <= u32::MAX,
            total == boxes_len(s.subrange(0, i as int)),
        decreases n - i,
    {
        proof {
            lemma_boxes_step(s, i as int);
            lemma_boxes_len_prefix(s, i as int + 1);
            lemma_boxes_len_elem(s, i as int);
        }
        total = total + items[i].len();
        i = i + 1;
    }
    proof {
        assert(s.subrange(0, n as int) =~= s);
    }
    total
}

/// Writes every box of `items`, in order.
pub fn write_boxes<B: MpegBox>(items: &Vec<B>, out: &mut Vec<u8>)
    requires
        boxes_wf(items@),
        boxes_len(items@) <= u32::MAX,
    ensures
        final(out)@ == old(out)@ + boxes_bytes(items@),
{
    let ghost s = items@;
    let n = items.len();
    let mut i: usize = 0;
    while i < n
        invariant
            n == s.len(),
            s == items@,
            i <= n,
            boxes_wf(s),
            boxes_len(s) <= u32::MAX,
            out@ == old(out)@ + boxes_bytes(s.subrange(0, i as int)),
        decreases n - i,
    {
        proof {
            lemma_boxes_step(s, i as int);
            lemma_boxes_len_elem(s, i as int);
        }
        items[i].write(out);
        i = i + 1;
    }
    proof {
        assert(s.subrange(0, n as int) =~= s);
    }
}

/// Serialized length of an optional child: absent means zero bytes.
pub open spec fn opt_len<B: MpegBox>(o: Option<B>) -> nat {
    match o {
        Some(b) => b.spec_len(),
        None => 0,
    }
}

/// Serialized bytes of an optional child: absent means no bytes.
pub open spec fn opt_bytes<B: MpegBox>(o: Option<B>) -> Seq<u8> {
    match o {
        Some(b) => b.spec_bytes(),
        None => Seq::empty(),
    }
}

pub open spec fn opt_wf<B: MpegBox>(o: Option<B>) -> bool {
    match o {
        Some(b) => b.wf(),
        None => true,
    }
}

pub proof fn lemma_opt_bytes_len<B: MpegBox>(o: Option<B>)
    ensures
        opt_bytes(o).len() == opt_len(o),
{
    match o {
        Some(b) => b.lemma_bytes_len(),
        None => {},
    }
}

/// Four-character box type tag.
#[derive(Debug, Copy, Clone)]
pub struct FourCC(pub [u8; 4]);

impl MpegBox for FourCC {
    open spec fn wf(&self) -> bool {
        true
    }

    open spec fn spec_len(&self) -> nat {
        4
    }

    open spec fn spec_bytes(&self) -> Seq<u8> {
        self.0@
    }

    proof fn lemma_bytes_len(&self) {
    }

    fn len(&self) -> (r: usize) {
        4
    }

    fn write(&self, out: &mut Vec<u8>) {
        push_bytes(out, self.0.as_slice());
    }
}

/// File Type box: declares the file brand and its compatible brands.
#[derive(Debug, Clone)]
pub struct FtypBox {
    pub major_brand: FourCC,
    pub minor_version: u32,
    pub compatible_brands: Vec<FourCC>,
}

impl MpegBox for FtypBox {
    open spec fn wf(&self) -> bool {
        true
    }

    open spec fn spec_len(&self) -> nat {
        (BASIC_BOX_SIZE + 4 + 4 + 4 * self.compatible_brands@.len()) as nat
    }

    open spec fn spec_bytes(&self) -> Seq<u8> {
        spec_u32_be(self.spec_len() as u32) + seq![102u8, 116u8, 121u8, 112u8]  // "ftyp"
        + self.major_brand.0@ + spec_u32_be(self.minor_version) + boxes_bytes(
            self.compatible_brands@,
        )
    }

    proof fn lemma_bytes_len(&self) {
        lemma_boxes_bytes_len(self.compatible_brands@);
        lemma_fourcc_list_len(self.compatible_brands@);
    }

    fn len(&self) -> (r: usize) {
        proof {
            lemma_fourcc_list_len(self.compatible_brands@);
        }
        BASIC_BOX_SIZE + 4 + 4 + 4 * self.compatible_brands.len()
    }

    fn write(&self, out: &mut Vec<u8>) {
        proof {
            lemma_fourcc_list_len(self.compatible_brands@);
        }
        push_box_header(out, self.len() as u32, [102u8, 116u8, 121u8, 112u8]);
        push_bytes(out, self.major_brand.0.as_slice());
        push_u32(out, self.minor_version);
        write_boxes(&self.compatible_brands, out);
        assert(out@ =~= old(out)@ + self.spec_bytes());
    }
}

/// A list of four-byte tags occupies four bytes per entry.
pub proof fn lemma_fourcc_list_len(s: Seq<FourCC>)
    ensures
        boxes_len(s) == 4 * s.len(),
    decreases s.len(),
{
    if s.len() > 0 {
        lemma_fourcc_list_len(s.drop_last());
    }
}

/// `n` copies of the byte `b`.
pub open spec fn repeat_byte(b: u8, n: nat) -> Seq<u8>
    decreases n,
{
    if n == 0 {
        Seq::empty()
    } else {
        repeat_byte(b, (n - 1) as nat).push(b)
    }
}

pub proof fn lemma_repeat_byte_len(b: u8, n: nat)
    ensures
        repeat_byte(b, n).len() == n,
    decreases n,
{
    if n > 0 {
        lemma_repeat_byte_len(b, (n - 1) as nat);
    }
}

/// Handler box: tells readers this file carries pictures.
#[derive(Debug, Clone)]
pub struct HdlrBox {
    pub handler_type: FourCC,
    pub name: &'static str,
}

impl MpegBox for HdlrBox {
    open spec fn wf(&self) -> bool {
        true
    }

    open spec fn spec_len(&self) -> nat {
        (FULL_BOX_SIZE + 20 + self.name.spec_bytes().len() + 1) as nat
    }

    open spec fn spec_bytes(&self) -> Seq<u8> {
        spec_u32_be(self.spec_len() as u32) + seq![104u8, 100u8, 108u8, 114u8]  // "hdlr"
        + spec_version_flags(0, 0) + spec_u32_be(0) + self.handler_type.0@ + spec_u32_be(0)
            + spec_u32_be(0) + spec_u32_be(0) + self.name.spec_bytes() + seq![0u8]
    }

    proof fn lemma_bytes_len(&self) {
    }

    fn len(&self) -> (r: usize) {
        FULL_BOX_SIZE + 20 + self.name.len() + 1
    }

    fn write(&self, out: &mut Vec<u8>) {
        push_full_box_header(out, self.len() as u32, [104u8, 100u8, 108u8, 114u8], 0, 0);
        push_u32(out, 0);
        push_bytes(out, self.handler_type.0.as_slice());
        push_u32(out, 0);
        push_u32(out, 0);
        push_u32(out, 0);
        push_bytes(out, self.name.as_bytes());
        push_u8(out, 0);
        assert(out@ =~= old(out)@ + self.spec_bytes());
    }
}

/// Item Info Entry box: one catalogued image item.
#[derive(Debug, Copy, Clone)]
pub struct InfeBox {
    pub id: u16,
    pub typ: FourCC,
    pub name: &'static str,
}

impl MpegBox for InfeBox {
    open spec fn wf(&self) -> bool {
        true
    }

    open spec fn spec_len(&self) -> nat {
        (FULL_BOX_SIZE + 2 + 2 + 4 + self.name.spec_bytes().len() + 1) as nat
    }

    open spec fn spec_bytes(&self) -> Seq<u8> {
        spec_u32_be(self.spec_len() as u32) + seq![105u8, 110u8, 102u8, 101u8]  // "infe"
        + spec_version_flags(2, 0) + spec_u16_be(self.id) + spec_u16_be(0) + self.typ.0@
            + self.name.spec_bytes() + seq![0u8]
    }

    proof fn lemma_bytes_len(&self) {
    }

    fn len(&self) -> (r: usize) {
        FULL_BOX_SIZE + 2 + 2 + 4 + self.name.len() + 1
    }

    fn write(&self, out: &mut Vec<u8>) {
        push_full_box_header(out, self.len() as u32, [105u8, 110u8, 102u8, 101u8], 2, 0);
        push_u16(out, self.id);
        push_u16(out, 0);
        push_bytes(out, self.typ.0.as_slice());
        push_bytes(out, self.name.as_bytes());
        push_u8(out, 0);
        assert(out@ =~= old(out)@ + self.spec_bytes());
    }
}

/// Item Info box: the catalogue of image items.
#[derive(Debug, Clone)]
pub struct IinfBox {
    pub items: Vec<InfeBox>,
}

impl MpegBox for IinfBox {
    open spec fn wf(&self) -> bool {
        true
    }

    open spec fn spec_len(&self) -> nat {
        (FULL_BOX_SIZE + 2 + boxes_len(self.items@)) as nat
    }

    open spec fn spec_bytes(&self) -> Seq<u8> {
        spec_u32_be(self.spec_len() as u32) + seq![105u8, 105u8, 110u8, 102u8]  // "iinf"
        + spec_version_flags(0, 0) + spec_u16_be(self.items@.len() as u16) + boxes_bytes(
            self.items@,
        )
    }

    proof fn lemma_bytes_len(&self) {
        lemma_boxes_bytes_len(self.items@);
    }

    fn len(&self) -> (r: usize) {
        FULL_BOX_SIZE + 2 + boxes_total_len(&self.items)
    }

    fn write(&self, out: &mut Vec<u8>) {
        push_full_box_header(out, self.len() as u32, [105u8, 105u8, 110u8, 102u8], 0, 0);
        push_u16(out, self.items.len() as u16);
        write_boxes(&self.items, out);
        assert(out@ =~= old(out)@ + self.spec_bytes());
    }
}

/// Primary Item box: which item a reader should display.
#[derive(Debug, Copy, Clone)]
pub struct PitmBox(pub u16);

impl MpegBox for PitmBox {
    open spec fn wf(&self) -> bool {
        true
    }

    open spec fn spec_len(&self) -> nat {
        (FULL_BOX_SIZE + 2) as nat
    }

    open spec fn spec_bytes(&self) -> Seq<u8> {
        spec_u32_be(self.spec_len() as u32) + seq![112u8, 105u8, 116u8, 109u8]  // "pitm"
        + spec_version_flags(0, 0) + spec_u16_be(self.0)
    }

    proof fn lemma_bytes_len(&self) {
    }

    fn len(&self) -> (r: usize) {
        FULL_BOX_SIZE + 2
    }

    fn write(&self, out: &mut Vec<u8>) {
        push_full_box_header(out, self.len() as u32, [112u8, 105u8, 116u8, 109u8], 0, 0);
        push_u16(out, self.0);
        assert(out@ =~= old(out)@ + self.spec_bytes());
    }
}

/// Image Spatial Extents box: pixel dimensions.
#[derive(Debug, Copy, Clone)]
pub struct IspeBox {
    pub width: u32,
    pub height: u32,
}

impl MpegBox for IspeBox {
    open spec fn wf(&self) -> bool {
        true
    }

    open spec fn spec_len(&self) -> nat {
        (FULL_BOX_SIZE + 4 + 4) as nat
    }

    open spec fn spec_bytes(&self) -> Seq<u8> {
        spec_u32_be(self.spec_len() as u32) + seq![105u8, 115u8, 112u8, 101u8]  // "ispe"
        + spec_version_flags(0, 0) + spec_u32_be(self.width) + spec_u32_be(self.height)
    }

    proof fn lemma_bytes_len(&self) {
    }

    fn len(&self) -> (r: usize) {
        FULL_BOX_SIZE + 4 + 4
    }

    fn write(&self, out: &mut Vec<u8>) {
        push_full_box_header(out, self.len() as u32, [105u8, 115u8, 112u8, 101u8], 0, 0);
        push_u32(out, self.width);
        push_u32(out, self.height);
        assert(out@ =~= old(out)@ + self.spec_bytes());
    }
}

/// Pixel Information box: bit depth of each channel.
#[derive(Debug, Copy, Clone)]
pub struct PixiBox {
    pub depth: u8,
    pub channels: u8,
}

impl MpegBox for PixiBox {
    open spec fn wf(&self) -> bool {
        true
    }

    open spec fn spec_len(&self) -> nat {
        (FULL_BOX_SIZE + 1 + self.channels) as nat
    }

    open spec fn spec_bytes(&self) -> Seq<u8> {
        spec_u32_be(self.spec_len() as u32) + seq![112u8, 105u8, 120u8, 105u8]  // "pixi"
        + spec_version_flags(0, 0) + seq![self.channels] + repeat_byte(
            self.depth,
            self.channels as nat,
        )
    }

    proof fn lemma_bytes_len(&self) {
        lemma_repeat_byte_len(self.depth, self.channels as nat);
    }

    fn len(&self) -> (r: usize) {
        FULL_BOX_SIZE + 1 + self.channels as usize
    }

    fn write(&self, out: &mut Vec<u8>) {
        push_full_box_header(out, self.len() as u32, [112u8, 105u8, 120u8, 105u8], 0, 0);
        push_u8(out, self.channels);
        let ghost mid = out@;
        let n = self.channels;
        let mut j: u8 = 0;
        while j < n
            invariant
                j <= n,
                out@ == mid + repeat_byte(self.depth, j as nat),
            decreases n - j,
        {
            push_u8(out, self.depth);
            j = j + 1;
        }
        assert(out@ =~= old(out)@ + self.spec_bytes());
    }
}

/// Auxiliary type box: what kind of auxiliary image the item is.
#[derive(Debug, Copy, Clone)]
pub struct AuxCBox {
    pub urn: &'static str,
}

impl MpegBox for AuxCBox {
    open spec fn wf(&self) -> bool {
        true
    }

    open spec fn spec_len(&self) -> nat {
        (FULL_BOX_SIZE + self.urn.spec_bytes().len() + 1) as nat
    }

    open spec fn spec_bytes(&self) -> Seq<u8> {
        spec_u32_be(self.spec_len() as u32) + seq![97u8, 117u8, 120u8, 67u8]  // "auxC"
        + spec_version_flags(0, 0) + self.urn.spec_bytes() + seq![0u8]
    }

    proof fn lemma_bytes_len(&self) {
    }

    fn len(&self) -> (r: usize) {
        FULL_BOX_SIZE + self.urn.len() + 1
    }

    fn write(&self, out: &mut Vec<u8>) {
        push_full_box_header(out, self.len() as u32, [97u8, 117u8, 120u8, 67u8], 0, 0);
        push_bytes(out, self.urn.as_bytes());
        push_u8(out, 0);
        assert(out@ =~= old(out)@ + self.spec_bytes());
    }
}

/// AV1 codec configuration record.
#[derive(Debug, Copy, Clone)]
pub struct Av1CBox {
    pub seq_profile: u8,
    pub seq_level_idx_0: u8,
    pub seq_tier_0: bool,
    pub high_bitdepth: bool,
    pub twelve_bit: bool,
    pub monochrome: bool,
    pub chroma_subsampling_x: bool,
    pub chroma_subsampling_y: bool,
    pub chroma_sample_position: u8,
}

impl Av1CBox {
    /// The packed flag byte of the configuration record.
    pub open spec fn spec_flags_byte(&self) -> u8 {
        (if self.seq_tier_0 {
            128u8
        } else {
            0u8
        }) | (if self.high_bitdepth {
            64u8
        } else {
            0u8
        }) | (if self.twelve_bit {
            32u8
        } else {
            0u8
        }) | (if self.monochrome {
            16u8
        } else {
            0u8
        }) | (if self.chroma_subsampling_x {
            8u8
        } else {
            0u8
        }) | (if self.chroma_subsampling_y {
            4u8
        } else {
            0u8
        }) | self.chroma_sample_position
    }
}

impl MpegBox for Av1CBox {
    open spec fn wf(&self) -> bool {
        true
    }

    open spec fn spec_len(&self) -> nat {
        (BASIC_BOX_SIZE + 4) as nat
    }

    open spec fn spec_bytes(&self) -> Seq<u8> {
        spec_u32_be(self.spec_len() as u32) + seq![97u8, 118u8, 49u8, 67u8]  // "av1C"
        + seq![
            129u8,  // marker bit and version 1
            (self.seq_profile << 5) | self.seq_level_idx_0,
            self.spec_flags_byte(),
            0u8,
        ]
    }

    proof fn lemma_bytes_len(&self) {
    }

    fn len(&self) -> (r: usize) {
        BASIC_BOX_SIZE + 4
    }

    fn write(&self, out: &mut Vec<u8>) {
        push_box_header(out, self.len() as u32, [97u8, 118u8, 49u8, 67u8]);
        push_u8(out, 129);
        push_u8(out, (self.seq_profile << 5) | self.seq_level_idx_0);
        let flags: u8 = (if self.seq_tier_0 {
            128u8
        } else {
            0u8
        }) | (if self.high_bitdepth {
            64u8
        } else {
            0u8
        }) | (if self.twelve_bit {
            32u8
        } else {
            0u8
        }) | (if self.monochrome {
            16u8
        } else {
            0u8
        }) | (if self.chroma_subsampling_x {
            8u8
        } else {
            0u8
        }) | (if self.chroma_subsampling_y {
            4u8
        } else {
            0u8
        }) | self.chroma_sample_position;
        push_u8(out, flags);
        push_u8(out, 0);
        assert(out@ =~= old(out)@ + self.spec_bytes());
    }
}

/// Colour Information box: CICP color description codes.
#[derive(Debug, Copy, Clone, PartialEq, Eq, Structural)]
pub struct ColrBox {
    pub color_primaries: crate::constants::ColorPrimaries,
    pub transfer_characteristics: crate::constants::TransferCharacteristics,
    pub matrix_coefficients: crate::constants::MatrixCoefficients,
    pub full_range_flag: bool,
}

/// The defaults a reader assumes when the box is missing.
pub open spec fn spec_default_colr() -> ColrBox {
    ColrBox {
        color_primaries: crate::constants::ColorPrimaries::Bt709,
        transfer_characteristics: crate::constants::TransferCharacteristics::Srgb,
        matrix_coefficients: crate::constants::MatrixCoefficients::Bt601,
        full_range_flag: true,
    }
}

impl Default for ColrBox {
    fn default() -> (r: Self)
        ensures
            r == spec_default_colr(),
    {
        ColrBox {
            color_primaries: crate::constants::ColorPrimaries::Bt709,
            transfer_characteristics: crate::constants::TransferCharacteristics::Srgb,
            matrix_coefficients: crate::constants::MatrixCoefficients::Bt601,
            full_range_flag: true,
        }
    }
}

impl MpegBox for ColrBox {
    open spec fn wf(&self) -> bool {
        true
    }

    open spec fn spec_len(&self) -> nat {
        (BASIC_BOX_SIZE + 4 + 2 + 2 + 2 + 1) as nat
    }

    open spec fn spec_bytes(&self) -> Seq<u8> {
        spec_u32_be(self.spec_len() as u32) + seq![99u8, 111u8, 108u8, 114u8]  // "colr"
        + seq![110u8, 99u8, 108u8, 120u8]  // "nclx"
        + spec_u16_be(self.color_primaries.spec_code()) + spec_u16_be(
            self.transfer_characteristics.spec_code(),
        ) + spec_u16_be(self.matrix_coefficients.spec_code()) + seq![
            if self.full_range_flag {
                128u8
            } else {
                0u8
            },
        ]
    }

    proof fn lemma_bytes_len(&self) {
    }

    fn len(&self) -> (r: usize) {
        BASIC_BOX_SIZE + 4 + 2 + 2 + 2 + 1
    }

    #[verifier::rlimit(50)]
    fn write(&self, out: &mut Vec<u8>) {
        push_box_header(out, self.len() as u32, [99u8, 111u8, 108u8, 114u8]);
        push_bytes(out, [110u8, 99u8, 108u8, 120u8].as_slice());
        push_u16(out, self.color_primaries.code());
        push_u16(out, self.transfer_characteristics.code());
        push_u16(out, self.matrix_coefficients.code());
        push_u8(
            out,
            if self.full_range_flag {
                128
            } else {
                0
            },
        );
        assert(out@ =~= old(out)@ + self.spec_bytes());
    }
}

/// One record of the shared item-property pool.
#[derive(Debug, Clone)]
pub enum IpcoProp {
    Av1C(Av1CBox),
    Pixi(PixiBox),
    Ispe(IspeBox),
    AuxC(AuxCBox),
    Colr(ColrBox),
}

impl MpegBox for IpcoProp {
    open spec fn wf(&self) -> bool {
        true
    }

    open spec fn spec_len(&self) -> nat {
        match self {
            IpcoProp::Av1C(p) => p.spec_len(),
            IpcoProp::Pixi(p) => p.spec_len(),
            IpcoProp::Ispe(p) => p.spec_len(),
            IpcoProp::AuxC(p) => p.spec_len(),
            IpcoProp::Colr(p) => p.spec_len(),
        }
    }

    open spec fn spec_bytes(&self) -> Seq<u8> {
        match self {
            IpcoProp::Av1C(p) => p.spec_bytes(),
            IpcoProp::Pixi(p) => p.spec_bytes(),
            IpcoProp::Ispe(p) => p.spec_bytes(),
            IpcoProp::AuxC(p) => p.spec_bytes(),
            IpcoProp::Colr(p) => p.spec_bytes(),
        }
    }

    proof fn lemma_bytes_len(&self) {
        match self {
            IpcoProp::Av1C(p) => p.lemma_bytes_len(),
            IpcoProp::Pixi(p) => p.lemma_bytes_len(),
            IpcoProp::Ispe(p) => p.lemma_bytes_len(),
            IpcoProp::AuxC(p) => p.lemma_bytes_len(),
            IpcoProp::Colr(p) => p.lemma_bytes_len(),
        }
    }

    fn len(&self) -> (r: usize) {
        match self {
            IpcoProp::Av1C(p) => p.len(),
            IpcoProp::Pixi(p) => p.len(),
            IpcoProp::Ispe(p) => p.len(),
            IpcoProp::AuxC(p) => p.len(),
            IpcoProp::Colr(p) => p.len(),
        }
    }

    fn write(&self, out: &mut Vec<u8>) {
        match self {
            IpcoProp::Av1C(p) => p.write(out),
            IpcoProp::Pixi(p) => p.write(out),
            IpcoProp::Ispe(p) => p.write(out),
            IpcoProp::AuxC(p) => p.write(out),
            IpcoProp::Colr(p) => p.write(out),
        }
    }
}

/// Item Property Container box: the ordered, shared property pool.
///
/// Order is significant: items reference properties by 1-based index into
/// this pool, fixed at `push` time.
#[derive(Debug, Clone)]
pub struct IpcoBox {
    pub props: Vec<IpcoProp>,
}

impl IpcoBox {
    pub open spec fn spec_props(&self) -> Seq<IpcoProp> {
        self.props@
    }

    pub fn new() -> (r: Self)
        ensures
            r.spec_props() == Seq::<IpcoProp>::empty(),
    {
        let r = IpcoBox { props: Vec::new() };
        proof {
            assert(r.spec_props() =~= Seq::<IpcoProp>::empty());
        }
        r
    }

    /// Appends a property and returns its 1-based index in the pool.
    pub fn push(&mut self, prop: IpcoProp) -> (r: u8)
        requires
            old(self).spec_props().len() < 255,
        ensures
            final(self).spec_props() == old(self).spec_props().push(prop),
            r == old(self).spec_props().len() + 1,
    {
        self.props.push(prop);
        self.props.len() as u8
    }
}

impl MpegBox for IpcoBox {
    open spec fn wf(&self) -> bool {
        true
    }

    open spec fn spec_len(&self) -> nat {
        (BASIC_BOX_SIZE + boxes_len(self.props@)) as nat
    }

    open spec fn spec_bytes(&self) -> Seq<u8> {
        spec_u32_be(self.spec_len() as u32) + seq![105u8, 112u8, 99u8, 111u8]  // "ipco"
        + boxes_bytes(self.props@)
    }

    proof fn lemma_bytes_len(&self) {
        lemma_boxes_bytes_len(self.props@);
    }

    fn len(&self) -> (r: usize) {
        BASIC_BOX_SIZE + boxes_total_len(&self.props)
    }

    fn write(&self, out: &mut Vec<u8>) {
        push_box_header(out, self.len() as u32, [105u8, 112u8, 99u8, 111u8]);
        write_boxes(&self.props, out);
        assert(out@ =~= old(out)@ + self.spec_bytes());
    }
}

impl MpegBox for u8 {
    open spec fn wf(&self) -> bool {
        true
    }

    open spec fn spec_len(&self) -> nat {
        1
    }

    open spec fn spec_bytes(&self) -> Seq<u8> {
        seq![*self]
    }

    proof fn lemma_bytes_len(&self) {
    }

    fn len(&self) -> (r: usize) {
        1
    }

    fn write(&self, out: &mut Vec<u8>) {
        push_u8(out, *self);
    }
}

/// A list of single bytes occupies one byte per entry.
pub proof fn lemma_u8_list_len(s: Seq<u8>)
    ensures
        boxes_len(s) == s.len(),
    decreases s.len(),
{
    if s.len() > 0 {
        lemma_u8_list_len(s.drop_last());
    }
}

/// One property-association entry: an item and the pool indices it uses.
#[derive(Debug, Clone)]
pub struct IpmaEntry {
    pub item_id: u16,
    pub prop_ids: Vec<u8>,
}

impl MpegBox for IpmaEntry {
    open spec fn wf(&self) -> bool {
        true
    }

    open spec fn spec_len(&self) -> nat {
        (2 + 1 + self.prop_ids@.len()) as nat
    }

    open spec fn spec_bytes(&self) -> Seq<u8> {
        spec_u16_be(self.item_id) + seq![self.prop_ids@.len() as u8] + boxes_bytes(self.prop_ids@)
    }

    proof fn lemma_bytes_len(&self) {
        lemma_boxes_bytes_len(self.prop_ids@);
        lemma_u8_list_len(self.prop_ids@);
    }

    fn len(&self) -> (r: usize) {
        proof {
            lemma_u8_list_len(self.prop_ids@);
        }
        2 + 1 + self.prop_ids.len()
    }

    fn write(&self, out: &mut Vec<u8>) {
        proof {
            lemma_u8_list_len(self.prop_ids@);
        }
        push_u16(out, self.item_id);
        push_u8(out, self.prop_ids.len() as u8);
        write_boxes(&self.prop_ids, out);
        assert(out@ =~= old(out)@ + self.spec_bytes());
    }
}

/// Item Property Association box: assigns pooled properties to items.
#[derive(Debug, Clone)]
pub struct IpmaBox {
    pub entries: Vec<IpmaEntry>,
}

impl MpegBox for IpmaBox {
    open spec fn wf(&self) -> bool {
        true
    }

    open spec fn spec_len(&self) -> nat {
        (FULL_BOX_SIZE + 4 + boxes_len(self.entries@)) as nat
    }

    open spec fn spec_bytes(&self) -> Seq<u8> {
        spec_u32_be(self.spec_len() as u32) + seq![105u8, 112u8, 109u8, 97u8]  // "ipma"
        + spec_version_flags(0, 0) + spec_u32_be(self.entries@.len() as u32) + boxes_bytes(
            self.entries@,
        )
    }

    proof fn lemma_bytes_len(&self) {
        lemma_boxes_bytes_len(self.entries@);
    }

    fn len(&self) -> (r: usize) {
        FULL_BOX_SIZE + 4 + boxes_total_len(&self.entries)
    }

    fn write(&self, out: &mut Vec<u8>) {
        push_full_box_header(out, self.len() as u32, [105u8, 112u8, 109u8, 97u8], 0, 0);
        push_u32(out, self.entries.len() as u32);
        write_boxes(&self.entries, out);
        assert(out@ =~= old(out)@ + self.spec_bytes());
    }
}

/// Item Properties box: the property pool plus its association lists.
#[derive(Debug, Clone)]
pub struct IprpBox {
    pub ipco: IpcoBox,
    pub ipma: IpmaBox,
}

impl MpegBox for IprpBox {
    open spec fn wf(&self) -> bool {
        true
    }

    open spec fn spec_len(&self) -> nat {
        (BASIC_BOX_SIZE + self.ipco.spec_len() + self.ipma.spec_len()) as nat
    }

    open spec fn spec_bytes(&self) -> Seq<u8> {
        spec_u32_be(self.spec_len() as u32) + seq![105u8, 112u8, 114u8, 112u8]  // "iprp"
        + self.ipco.spec_bytes() + self.ipma.spec_bytes()
    }

    proof fn lemma_bytes_len(&self) {
        self.ipco.lemma_bytes_len();
        self.ipma.lemma_bytes_len();
    }

    fn len(&self) -> (r: usize) {
        BASIC_BOX_SIZE + self.ipco.len() + self.ipma.len()
    }

    fn write(&self, out: &mut Vec<u8>) {
        push_box_header(out, self.len() as u32, [105u8, 112u8, 114u8, 112u8]);
        self.ipco.write(out);
        self.ipma.write(out);
        assert(out@ =~= old(out)@ + self.spec_bytes());
    }
}

/// One directed, typed reference between two items.
#[derive(Debug, Copy, Clone)]
pub struct IrefEntryBox {
    pub from_id: u16,
    pub to_id: u16,
    pub typ: FourCC,
}

impl MpegBox for IrefEntryBox {
    open spec fn wf(&self) -> bool {
        true
    }

    open spec fn spec_len(&self) -> nat {
        (BASIC_BOX_SIZE + 2 + 2 + 2) as nat
    }

    open spec fn spec_bytes(&self) -> Seq<u8> {
        spec_u32_be(self.spec_len() as u32) + self.typ.0@ + spec_u16_be(self.from_id) + spec_u16_be(
            1,
        ) + spec_u16_be(self.to_id)
    }

    proof fn lemma_bytes_len(&self) {
    }

    fn len(&self) -> (r: usize) {
        BASIC_BOX_SIZE + 2 + 2 + 2
    }

    fn write(&self, out: &mut Vec<u8>) {
        push_box_header(out, self.len() as u32, self.typ.0);
        push_u16(out, self.from_id);
        push_u16(out, 1);
        push_u16(out, self.to_id);
        assert(out@ =~= old(out)@ + self.spec_bytes());
    }
}

/// Item Reference box: wraps one typed reference entry.
#[derive(Debug, Copy, Clone)]
pub struct IrefBox {
    pub entry: IrefEntryBox,
}

impl MpegBox for IrefBox {
    open spec fn wf(&self) -> bool {
        true
    }

    open spec fn spec_len(&self) -> nat {
        (FULL_BOX_SIZE + self.entry.spec_len()) as nat
    }

    open spec fn spec_bytes(&self) -> Seq<u8> {
        spec_u32_be(self.spec_len() as u32) + seq![105u8, 114u8, 101u8, 102u8]  // "iref"
        + spec_version_flags(0, 0) + self.entry.spec_bytes()
    }

    proof fn lemma_bytes_len(&self) {
        self.entry.lemma_bytes_len();
    }

    fn len(&self) -> (r: usize) {
        FULL_BOX_SIZE + self.entry.len()
    }

    fn write(&self, out: &mut Vec<u8>) {
        push_full_box_header(out, self.len() as u32, [105u8, 114u8, 101u8, 102u8], 0, 0);
        self.entry.write(out);
        assert(out@ =~= old(out)@ + self.spec_bytes());
    }
}

/// Auxiliary item marker box.
#[derive(Debug, Copy, Clone)]
pub struct AuxlBox {}

impl MpegBox for AuxlBox {
    open spec fn wf(&self) -> bool {
        true
    }

    open spec fn spec_len(&self) -> nat {
        FULL_BOX_SIZE as nat
    }

    open spec fn spec_bytes(&self) -> Seq<u8> {
        spec_u32_be(self.spec_len() as u32) + seq![97u8, 117u8, 120u8, 108u8]  // "auxl"
        + spec_version_flags(0, 0)
    }

    proof fn lemma_bytes_len(&self) {
    }

    fn len(&self) -> (r: usize) {
        FULL_BOX_SIZE
    }

    fn write(&self, out: &mut Vec<u8>) {
        push_full_box_header(out, self.len() as u32, [97u8, 117u8, 120u8, 108u8], 0, 0);
        assert(out@ =~= old(out)@ + self.spec_bytes());
    }
}

/// Where an item's payload lives: relative to the payload box's content at
/// construction time, absolute in the file once resolved.
#[derive(Debug, Copy, Clone, PartialEq, Eq, Structural)]
pub enum IlocOffset {
    Relative(usize),
    Absolute(u32),
}

impl IlocOffset {
    pub open spec fn is_absolute(self) -> bool {
        matches!(self, IlocOffset::Absolute(_))
    }

    /// The resolved file offset; meaningful only once absolute.
    pub open spec fn spec_absolute(self) -> u32 {
        match self {
            IlocOffset::Absolute(v) => v,
            IlocOffset::Relative(_) => 0,
        }
    }
}

/// An (offset, length) pointer into the payload box.
#[derive(Debug, Copy, Clone)]
pub struct IlocExtent {
    pub offset: IlocOffset,
    pub len: usize,
}

impl MpegBox for IlocExtent {
    open spec fn wf(&self) -> bool {
        self.offset.is_absolute()
    }

    open spec fn spec_len(&self) -> nat {
        8
    }

    open spec fn spec_bytes(&self) -> Seq<u8> {
        spec_u32_be(self.offset.spec_absolute()) + spec_u32_be(self.len as u32)
    }

    proof fn lemma_bytes_len(&self) {
    }

    fn len(&self) -> (r: usize) {
        8
    }

    fn write(&self, out: &mut Vec<u8>) {
        let v: u32 = match self.offset {
            IlocOffset::Absolute(v) => v,
            IlocOffset::Relative(_) => 0,
        };
        push_u32(out, v);
        push_u32(out, self.len as u32);
        assert(out@ =~= old(out)@ + self.spec_bytes());
    }
}

/// A list of extents occupies eight bytes per entry.
pub proof fn lemma_extent_list_len(s: Seq<IlocExtent>)
    ensures
        boxes_len(s) == 8 * s.len(),
    decreases s.len(),
{
    if s.len() > 0 {
        lemma_extent_list_len(s.drop_last());
    }
}

/// One item's location record: its id and extents.
#[derive(Debug, Clone)]
pub struct IlocItem {
    pub id: u16,
    pub extents: Vec<IlocExtent>,
}

impl MpegBox for IlocItem {
    open spec fn wf(&self) -> bool {
        boxes_wf(self.extents@)
    }

    open spec fn spec_len(&self) -> nat {
        (2 + 2 + 2 + boxes_len(self.extents@)) as nat
    }

    open spec fn spec_bytes(&self) -> Seq<u8> {
        spec_u16_be(self.id) + spec_u16_be(0) + spec_u16_be(self.extents@.len() as u16)
            + boxes_bytes(self.extents@)
    }

    proof fn lemma_bytes_len(&self) {
        lemma_boxes_bytes_len(self.extents@);
    }

    fn len(&self) -> (r: usize) {
        2 + 2 + 2 + boxes_total_len(&self.extents)
    }

    fn write(&self, out: &mut Vec<u8>) {
        push_u16(out, self.id);
        push_u16(out, 0);
        push_u16(out, self.extents.len() as u16);
        write_boxes(&self.extents, out);
        assert(out@ =~= old(out)@ + self.spec_bytes());
    }
}

/// Item Location box: where each item's coded bytes live in the file.
///
/// Offsets and lengths are stored as fixed 32-bit fields, which is what lets
/// the whole tree's size be computed in one bottom-up pass.
#[derive(Debug, Clone)]
pub struct IlocBox {
    pub items: Vec<IlocItem>,
}

impl IlocBox {
    /// Every extent of every item has been resolved to an absolute offset.
    pub open spec fn all_absolute(&self) -> bool {
        boxes_wf(self.items@)
    }
}

impl MpegBox for IlocBox {
    open spec fn wf(&self) -> bool {
        self.all_absolute()
    }

    open spec fn spec_len(&self) -> nat {
        (FULL_BOX_SIZE + 1 + 1 + 2 + boxes_len(self.items@)) as nat
    }

    open spec fn spec_bytes(&self) -> Seq<u8> {
        spec_u32_be(self.spec_len() as u32) + seq![105u8, 108u8, 111u8, 99u8]  // "iloc"
        + spec_version_flags(0, 0) + seq![68u8, 0u8]  // 4-byte offsets and lengths
        + spec_u16_be(self.items@.len() as u16) + boxes_bytes(self.items@)
    }

    proof fn lemma_bytes_len(&self) {
        lemma_boxes_bytes_len(self.items@);
    }

    fn len(&self) -> (r: usize) {
        FULL_BOX_SIZE + 1 + 1 + 2 + boxes_total_len(&self.items)
    }

    fn write(&self, out: &mut Vec<u8>) {
        push_full_box_header(out, self.len() as u32, [105u8, 108u8, 111u8, 99u8], 0, 0);
        push_u8(out, 68);
        push_u8(out, 0);
        push_u16(out, self.items.len() as u16);
        write_boxes(&self.items, out);
        assert(out@ =~= old(out)@ + self.spec_bytes());
    }
}

/// Metadata box: the item catalogue, locations, references and properties.
#[derive(Debug, Clone)]
pub struct MetaBox {
    pub hdlr: HdlrBox,
    pub iloc: IlocBox,
    pub iinf: IinfBox,
    pub pitm: PitmBox,
    pub iprp: IprpBox,
    pub iref: Vec<IrefBox>,
}

impl MpegBox for MetaBox {
    open spec fn wf(&self) -> bool {
        self.iloc.wf()
    }

    open spec fn spec_len(&self) -> nat {
        (FULL_BOX_SIZE + self.hdlr.spec_len() + self.pitm.spec_len() + self.iloc.spec_len()
            + self.iinf.spec_len() + boxes_len(self.iref@) + self.iprp.spec_len()) as nat
    }

    open spec fn spec_bytes(&self) -> Seq<u8> {
        spec_u32_be(self.spec_len() as u32) + seq![109u8, 101u8, 116u8, 97u8]  // "meta"
        + spec_version_flags(0, 0) + self.hdlr.spec_bytes() + self.pitm.spec_bytes()
            + self.iloc.spec_bytes() + self.iinf.spec_bytes() + boxes_bytes(self.iref@)
            + self.iprp.spec_bytes()
    }

    proof fn lemma_bytes_len(&self) {
        self.hdlr.lemma_bytes_len();
        self.pitm.lemma_bytes_len();
        self.iloc.lemma_bytes_len();
        self.iinf.lemma_bytes_len();
        lemma_boxes_bytes_len(self.iref@);
        self.iprp.lemma_bytes_len();
    }

    fn len(&self) -> (r: usize) {
        FULL_BOX_SIZE + self.hdlr.len() + self.pitm.len() + self.iloc.len() + self.iinf.len()
            + boxes_total_len(&self.iref) + self.iprp.len()
    }

    fn write(&self, out: &mut Vec<u8>) {
        push_full_box_header(out, self.len() as u32, [109u8, 101u8, 116u8, 97u8], 0, 0);
        self.hdlr.write(out);
        self.pitm.write(out);
        self.iloc.write(out);
        self.iinf.write(out);
        write_boxes(&self.iref, out);
        self.iprp.write(out);
        assert(out@ =~= old(out)@ + self.spec_bytes());
    }
}

/// One run of raw coded bytes inside the payload box.
#[derive(Debug, Clone)]
pub struct DataChunk(pub Vec<u8>);

impl MpegBox for DataChunk {
    open spec fn wf(&self) -> bool {
        true
    }

    open spec fn spec_len(&self) -> nat {
        self.0@.len()
    }

    open spec fn spec_bytes(&self) -> Seq<u8> {
        self.0@
    }

    proof fn lemma_bytes_len(&self) {
    }

    fn len(&self) -> (r: usize) {
        self.0.len()
    }

    fn write(&self, out: &mut Vec<u8>) {
        push_bytes(out, self.0.as_slice());
    }
}

/// Media Data box: the concatenated coded payloads, written last.
#[derive(Debug, Clone)]
pub struct MdatBox {
    pub data_chunks: Vec<DataChunk>,
}

impl MpegBox for MdatBox {
    open spec fn wf(&self) -> bool {
        true
    }

    open spec fn spec_len(&self) -> nat {
        (BASIC_BOX_SIZE + boxes_len(self.data_chunks@)) as nat
    }

    open spec fn spec_bytes(&self) -> Seq<u8> {
        spec_u32_be(self.spec_len() as u32) + seq![109u8, 100u8, 97u8, 116u8]  // "mdat"
        + boxes_bytes(self.data_chunks@)
    }

    proof fn lemma_bytes_len(&self) {
        lemma_boxes_bytes_len(self.data_chunks@);
    }

    fn len(&self) -> (r: usize) {
        BASIC_BOX_SIZE + boxes_total_len(&self.data_chunks)
    }

    fn write(&self, out: &mut Vec<u8>) {
        push_box_header(out, self.len() as u32, [109u8, 100u8, 97u8, 116u8]);
        write_boxes(&self.data_chunks, out);
        assert(out@ =~= old(out)@ + self.spec_bytes());
    }
}

/// Appending one box adds its length and its bytes at the end.
pub proof fn lemma_boxes_push<B: MpegBox>(s: Seq<B>, x: B)
    ensures
        boxes_len(s.push(x)) == boxes_len(s) + x.spec_len(),
        boxes_bytes(s.push(x)) == boxes_bytes(s) + x.spec_bytes(),
{
    assert(s.push(x).drop_last() =~= s);
    assert(s.push(x).last() == x);
}

/// Spells out the total length of a short sequence element by element, for
/// concrete box lists whose lengths the size algebra needs.
pub proof fn lemma_boxes_len_unroll<B: MpegBox>(s: Seq<B>)
    requires
        s.len() <= 8,
    ensures
        boxes_len(s) == (if s.len() > 0 {
            s[0].spec_len() as int
        } else {
            0
        }) + (if s.len() > 1 {
            s[1].spec_len() as int
        } else {
            0
        }) + (if s.len() > 2 {
            s[2].spec_len() as int
        } else {
            0
        }) + (if s.len() > 3 {
            s[3].spec_len() as int
        } else {
            0
        }) + (if s.len() > 4 {
            s[4].spec_len() as int
        } else {
            0
        }) + (if s.len() > 5 {
            s[5].spec_len() as int
        } else {
            0
        }) + (if s.len() > 6 {
            s[6].spec_len() as int
        } else {
            0
        }) + (if s.len() > 7 {
            s[7].spec_len() as int
        } else {
            0
        }),
    decreases s.len(),
{
    if s.len() > 0 {
        lemma_boxes_len_unroll(s.drop_last());
    }
}

/// Sequences whose elements agree pointwise in length have the same total.
pub proof fn lemma_boxes_len_pointwise<B: MpegBox>(s1: Seq<B>, s2: Seq<B>)
    requires
        s1.len() == s2.len(),
        forall|i: int| 0 <= i < s1.len() ==> (#[trigger] s1[i]).spec_len() == s2[i].spec_len(),
    ensures
        boxes_len(s1) == boxes_len(s2),
    decreases s1.len(),
{
    if s1.len() > 0 {
        assert(forall|i: int|
            0 <= i < s1.len() - 1 ==> (#[trigger] s1.drop_last()[i]).spec_len()
                == s2.drop_last()[i].spec_len());
        lemma_boxes_len_pointwise(s1.drop_last(), s2.drop_last());
    }
}

/// One extent with its offset resolved against the payload base.
pub open spec fn resolve_extent(e: IlocExtent, base: nat) -> IlocExtent {
    IlocExtent {
        offset: match e.offset {
            IlocOffset::Relative(n) => IlocOffset::Absolute((n + base) as u32),
            IlocOffset::Absolute(v) => IlocOffset::Absolute(v),
        },
        len: e.len,
    }
}

/// The resolved offset of this extent stays within a 32-bit field.
pub open spec fn extent_fits(e: IlocExtent, base: nat) -> bool {
    match e.offset {
        IlocOffset::Relative(n) => n + base <= u32::MAX,
        IlocOffset::Absolute(_) => true,
    }
}

pub open spec fn item_resolved_from(new: IlocItem, prev: IlocItem, base: nat) -> bool {
    &&& new.id == prev.id
    &&& new.extents@.len() == prev.extents@.len()
    &&& forall|j: int|
        0 <= j < prev.extents@.len() ==> new.extents@[j] == resolve_extent(
            #[trigger] prev.extents@[j],
            base,
        )
}

pub open spec fn iloc_resolved_from(new: IlocBox, prev: IlocBox, base: nat) -> bool {
    &&& new.items@.len() == prev.items@.len()
    &&& forall|i: int|
        0 <= i < prev.items@.len() ==> item_resolved_from(
            new.items@[i],
            #[trigger] prev.items@[i],
            base,
        )
}

/// Every still-relative offset in the table can be resolved against `base`
/// without overflowing its 32-bit field.
pub open spec fn iloc_offsets_fit(iloc: IlocBox, base: nat) -> bool {
    forall|i: int, j: int|
        0 <= i < iloc.items@.len() && 0 <= j < iloc.items@[i].extents@.len() ==> extent_fits(
            #[trigger] iloc.items@[i].extents@[j],
            base,
        )
}

/// The metadata box after offset resolution: identical but for the item
/// locations, whose offsets are now absolute.
pub open spec fn meta_resolved_from(new: MetaBox, prev: MetaBox, base: nat) -> bool {
    &&& new.hdlr == prev.hdlr
    &&& new.iinf == prev.iinf
    &&& new.pitm == prev.pitm
    &&& new.iprp == prev.iprp
    &&& new.iref == prev.iref
    &&& iloc_resolved_from(new.iloc, prev.iloc, base)
}

/// Resolution changes no lengths and leaves the box fit to write.
pub proof fn lemma_resolved_meta(new: MetaBox, prev: MetaBox, base: nat)
    requires
        meta_resolved_from(new, prev, base),
    ensures
        new.spec_len() == prev.spec_len(),
        new.wf(),
{
    assert forall|i: int| 0 <= i < new.items_view().len() implies (#[trigger] new.items_view()[i]).spec_len()
        == prev.items_view()[i].spec_len() by {
        lemma_extent_list_len(new.items_view()[i].extents@);
        lemma_extent_list_len(prev.items_view()[i].extents@);
    }
    lemma_boxes_len_pointwise(new.items_view(), prev.items_view());
    assert forall|i: int| 0 <= i < new.items_view().len() implies (#[trigger] new.items_view()[i]).wf() by {
        assert(forall|j: int|
            0 <= j < new.items_view()[i].extents@.len() ==> (#[trigger] new.items_view()[i].extents@[j])
                == resolve_extent(prev.items_view()[i].extents@[j], base));
    }
}

impl MetaBox {
    /// The item list of the location table, as a sequence.
    pub open spec fn items_view(&self) -> Seq<IlocItem> {
        self.iloc.items@
    }
}

/// The movie box after chunk-offset resolution: same but for the offsets.
pub open spec fn moov_stco_fixed(new: Option<MoovBox>, prev: Option<MoovBox>, base: nat) -> bool {
    match (new, prev) {
        (None, None) => true,
        (Some(nm), Some(pm)) => nm.mvhd == pm.mvhd && nm.tracks@ == stco_fixed_tracks(
            pm.tracks@,
            base,
        ),
        _ => false,
    }
}

/// Every track's resolved chunk offset stays within its 32-bit field.
pub open spec fn moov_offsets_fit(moov: Option<MoovBox>, base: nat) -> bool {
    match moov {
        Some(m) => base + tracks_suffix_total(m.tracks@, 0) <= u32::MAX,
        None => true,
    }
}

/// Chunk-offset resolution changes no lengths and leaves the movie box as
/// fit to write as it was.
pub proof fn lemma_fixed_moov_preserves(new: Option<MoovBox>, prev: Option<MoovBox>, base: nat)
    requires
        moov_stco_fixed(new, prev, base),
    ensures
        opt_len(new) == opt_len(prev),
        opt_wf(new) == opt_wf(prev),
{
    match (new, prev) {
        (Some(nm), Some(pm)) => {
            assert forall|q: int| 0 <= q < pm.tracks@.len() implies (#[trigger] nm.tracks@[q]).spec_len()
                == pm.tracks@[q].spec_len() && nm.tracks@[q].wf() == pm.tracks@[q].wf() by {
                lemma_upd_stco_len(
                    pm.tracks@[q],
                    (base + tracks_suffix_total(pm.tracks@, q + 1)) as u32,
                );
            }
            lemma_boxes_len_pointwise(nm.tracks@, pm.tracks@);
            assert(opt_wf(new) == boxes_wf(nm.tracks@));
            if boxes_wf(pm.tracks@) {
                assert forall|q: int| 0 <= q < nm.tracks@.len() implies (#[trigger] nm.tracks@[q]).wf() by {
                    assert(pm.tracks@[q].wf());
                }
            }
            if boxes_wf(nm.tracks@) {
                assert forall|q: int| 0 <= q < pm.tracks@.len() implies (#[trigger] pm.tracks@[q]).wf() by {
                    assert(nm.tracks@[q].wf());
                }
            }
            assert(boxes_wf(nm.tracks@) == boxes_wf(pm.tracks@));
        },
        _ => {},
    }
}

/// The whole container: type box, metadata, optional movie box, payload.
#[derive(Debug, Clone)]
pub struct AvifFile {
    pub ftyp: FtypBox,
    pub meta: MetaBox,
    pub moov: Option<MoovBox>,
    pub mdat: MdatBox,
}

impl AvifFile {
    /// Combined length of everything before the payload box.
    pub open spec fn spec_header_len(&self) -> nat {
        (self.ftyp.spec_len() + self.meta.spec_len() + opt_len(self.moov)) as nat
    }

    /// Where the payload box's content begins: past the header region and
    /// the payload box's own header.
    pub open spec fn spec_mdat_start(&self) -> nat {
        (self.spec_header_len() + BASIC_BOX_SIZE) as nat
    }

    pub open spec fn spec_len(&self) -> nat {
        (self.spec_header_len() + self.mdat.spec_len()) as nat
    }

    pub open spec fn spec_bytes(&self) -> Seq<u8> {
        self.ftyp.spec_bytes() + self.meta.spec_bytes() + opt_bytes(self.moov)
            + self.mdat.spec_bytes()
    }

    pub open spec fn wf(&self) -> bool {
        self.meta.wf() && opt_wf(self.moov)
    }

    /// The serialized file is exactly as long as its boxes report.
    pub proof fn lemma_bytes_len(&self)
        ensures
            self.spec_bytes().len() == self.spec_len(),
    {
        self.ftyp.lemma_bytes_len();
        self.meta.lemma_bytes_len();
        lemma_opt_bytes_len(self.moov);
        self.mdat.lemma_bytes_len();
    }

    /// Computes the payload base offset from the already-known box lengths.
    pub fn mdat_payload_start_offset(&self) -> (r: u32)
        requires
            self.spec_len() <= u32::MAX,
        ensures
            r == self.spec_mdat_start(),
    {
        (self.ftyp.len() + self.meta.len() + (match &self.moov {
            Some(moov) => moov.len(),
            None => 0,
        }) + BASIC_BOX_SIZE) as u32
    }

    /// Rewrites every relative extent offset to an absolute file offset,
    /// against the now-final payload base.
    pub fn fix_iloc_positions(&mut self)
        requires
            old(self).spec_len() <= u32::MAX,
            iloc_offsets_fit(old(self).meta.iloc, old(self).spec_mdat_start()),
        ensures
            final(self).ftyp == old(self).ftyp,
            final(self).moov == old(self).moov,
            final(self).mdat == old(self).mdat,
            meta_resolved_from(final(self).meta, old(self).meta, old(self).spec_mdat_start()),
    {
        let start = self.mdat_payload_start_offset();
        let ghost base = self.spec_mdat_start();
        let ghost items0 = self.meta.iloc.items@;
        let n = self.meta.iloc.items.len();
        let mut resolved: Vec<IlocItem> = Vec::new();
        let mut i: usize = 0;
        while i < n
            invariant
                n == items0.len(),
                *self == *old(self),
                items0 == old(self).meta.iloc.items@,
                i <= n,
                start == base,
                base == old(self).spec_mdat_start(),
                iloc_offsets_fit(old(self).meta.iloc, base),
                resolved@.len() == i,
                forall|k: int|
                    0 <= k < i ==> item_resolved_from(#[trigger] resolved@[k], items0[k], base),
            decreases n - i,
        {
            let item = &self.meta.iloc.items[i];
            let m = item.extents.len();
            let ghost ex0 = item.extents@;
            let mut exs: Vec<IlocExtent> = Vec::new();
            let mut j: usize = 0;
            while j < m
                invariant
                    m == ex0.len(),
                    item.extents@ == ex0,
                    j <= m,
                    start == base,
                    forall|q: int| 0 <= q < m ==> extent_fits(#[trigger] ex0[q], base),
                    exs@.len() == j,
                    forall|k: int| 0 <= k < j ==> exs@[k] == resolve_extent(#[trigger] ex0[k], base),
                decreases m - j,
            {
                let e = item.extents[j];
                let e2 = match e.offset {
                    IlocOffset::Relative(rel) => IlocExtent {
                        offset: IlocOffset::Absolute(rel as u32 + start),
                        len: e.len,
                    },
                    IlocOffset::Absolute(_) => e,
                };
                exs.push(e2);
                j += 1;
            }
            resolved.push(IlocItem { id: item.id, extents: exs });
            i += 1;
        }
        self.meta.iloc.items = resolved;
    }

    /// Resolves every track's chunk offset. The last-added track's samples
    /// sit first in the payload; each earlier track's samples follow all the
    /// sample bytes of the tracks after it.
    pub fn fix_stco_positions(&mut self)
        requires
            old(self).spec_len() <= u32::MAX,
            moov_offsets_fit(old(self).moov, old(self).spec_mdat_start()),
        ensures
            final(self).ftyp == old(self).ftyp,
            final(self).meta == old(self).meta,
            final(self).mdat == old(self).mdat,
            moov_stco_fixed(final(self).moov, old(self).moov, old(self).spec_mdat_start()),
    {
        let start = self.mdat_payload_start_offset();
        let ghost base = self.spec_mdat_start();
        match &mut self.moov {
            None => {},
            Some(m) => {
                let ghost mvhd0 = m.mvhd;
                let ghost tracks0 = m.tracks@;
                let n = m.tracks.len();
                let mut totals: Vec<u32> = Vec::new();
                let mut i: usize = 0;
                while i < n
                    invariant
                        n == tracks0.len(),
                        m.tracks@ == tracks0,
                        m.mvhd == mvhd0,
                        base + tracks_suffix_total(tracks0, 0) <= u32::MAX,
                        i <= n,
                        totals@.len() == i,
                        forall|k: int|
                            0 <= k < i ==> totals@[k] == track_sample_total(#[trigger] tracks0[k]),
                    decreases n - i,
                {
                    proof {
                        lemma_suffix_total_bound(tracks0, i as int);
                    }
                    let t = &m.tracks[i];
                    let tot = stsz_total(&t.mdia.minf.stbl.stsz.entry_size);
                    totals.push(tot);
                    i += 1;
                }
                let mut cur: u32 = start;
                let mut j: usize = n;
                while j > 0
                    invariant
                        n == tracks0.len(),
                        m.tracks@ == tracks0,
                        m.mvhd == mvhd0,
                        totals@.len() == n,
                        forall|k: int|
                            0 <= k < n ==> totals@[k] == track_sample_total(#[trigger] tracks0[k]),
                        base + tracks_suffix_total(tracks0, 0) <= u32::MAX,
                        j <= n,
                        cur == base + tracks_suffix_total(tracks0, j as int),
                    decreases j,
                {
                    j -= 1;
                    proof {
                        lemma_suffix_total_bound(tracks0, j as int);
                    }
                    cur = cur + totals[j];
                }
                let mut fixed: Vec<TrakBox> = Vec::new();
                let mut k: usize = 0;
                while k < n
                    invariant
                        n == tracks0.len(),
                        totals@.len() == n,
                        m.tracks@ == tracks0.subrange(k as int, n as int),
                        m.mvhd == mvhd0,
                        forall|q: int|
                            0 <= q < n ==> totals@[q] == track_sample_total(#[trigger] tracks0[q]),
                        base + tracks_suffix_total(tracks0, 0) <= u32::MAX,
                        k <= n,
                        cur == base + tracks_suffix_total(tracks0, k as int),
                        fixed@.len() == k,
                        forall|q: int|
                            0 <= q < k ==> #[trigger] fixed@[q] == upd_stco(
                                tracks0[q],
                                (base + tracks_suffix_total(tracks0, q + 1)) as u32,
                            ),
                    decreases n - k,
                {
                    let mut t = m.tracks.remove(0);
                    proof {
                        assert(t == tracks0[k as int]);
                        assert(m.tracks@ =~= tracks0.subrange(k as int + 1, n as int));
                        lemma_suffix_total_bound(tracks0, k as int);
                    }
                    cur = cur - totals[k];
                    t.mdia.minf.stbl.stco.chunk_offset = cur;
                    fixed.push(t);
                    k += 1;
                }
                m.tracks = fixed;
                proof {
                    assert(m.tracks@ =~= stco_fixed_tracks(tracks0, base));
                }
            },
        }
        proof {
            match (&self.moov, &old(self).moov) {
                (Some(nm), Some(pm)) => {
                    assert(nm.tracks@ == stco_fixed_tracks(pm.tracks@, base));
                },
                _ => {},
            }
        }
    }

    /// Resolves every offset, then serializes the whole tree: type box,
    /// metadata box, optional movie box, then the payload box.
    #[verifier::rlimit(100)]
    pub fn write(&mut self, out: &mut Vec<u8>)
        requires
            old(self).spec_len() <= u32::MAX,
            iloc_offsets_fit(old(self).meta.iloc, old(self).spec_mdat_start()),
            moov_offsets_fit(old(self).moov, old(self).spec_mdat_start()),
            opt_wf(old(self).moov),
        ensures
            final(self).ftyp == old(self).ftyp,
            final(self).mdat == old(self).mdat,
            meta_resolved_from(final(self).meta, old(self).meta, old(self).spec_mdat_start()),
            moov_stco_fixed(final(self).moov, old(self).moov, old(self).spec_mdat_start()),
            final(self).spec_header_len() == old(self).spec_header_len(),
            final(self).spec_len() == old(self).spec_len(),
            final(out)@ == old(out)@ + final(self).spec_bytes(),
    {
        let ghost base = self.spec_mdat_start();
        self.fix_iloc_positions();
        proof {
            lemma_resolved_meta(self.meta, old(self).meta, base);
        }
        self.fix_stco_positions();
        proof {
            lemma_resolved_meta(self.meta, old(self).meta, base);
            lemma_fixed_moov_preserves(self.moov, old(self).moov, base);
            assert(self.spec_len() == old(self).spec_len());
        }
        self.write_resolved(out);
    }

    /// Serializes an already-resolved tree: type box, metadata box,
    /// optional movie box, then the payload box, in order.
    fn write_resolved(&self, out: &mut Vec<u8>)
        requires
            self.wf(),
            self.spec_len() <= u32::MAX,
        ensures
            final(out)@ == old(out)@ + self.spec_bytes(),
    {
        self.ftyp.write(out);
        self.meta.write(out);
        match &self.moov {
            Some(moov) => moov.write(out),
            None => {},
        }
        self.mdat.write(out);
        proof {
            lemma_concat_four(
                old(out)@,
                self.ftyp.spec_bytes(),
                self.meta.spec_bytes(),
                opt_bytes(self.moov),
                self.mdat.spec_bytes(),
            );
        }
    }
}

/// Regrouping a four-part concatenation after a common prefix.
pub proof fn lemma_concat_four(o: Seq<u8>, a: Seq<u8>, b: Seq<u8>, c: Seq<u8>, d: Seq<u8>)
    ensures
        (((o + a) + b) + c) + d == o + (a + b + c + d),
{
    assert((((o + a) + b) + c) + d =~= o + (a + b + c + d));
}

} // verus!
