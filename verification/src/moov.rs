//! The movie box family: animation tracks and their sample tables.

use vstd::prelude::*;

verus! {

use vstd::string::StringSliceAdditionalSpecFns;
use crate::writer::spec_u16_be;
use crate::writer::spec_u32_be;
use crate::writer::spec_u64_be;
use crate::writer::spec_version_flags;
use crate::writer::push_u8;
use crate::writer::push_u16;
use crate::writer::push_u32;
use crate::writer::push_u64;
use crate::writer::push_bytes;
use crate::writer::push_box_header;
use crate::writer::push_full_box_header;
use crate::boxes::MpegBox;
use crate::boxes::BASIC_BOX_SIZE;
use crate::boxes::FULL_BOX_SIZE;
use crate::boxes::boxes_len;
use crate::boxes::boxes_bytes;
use crate::boxes::boxes_wf;
use crate::boxes::boxes_total_len;
use crate::boxes::write_boxes;
use crate::boxes::lemma_boxes_bytes_len;
use crate::boxes::opt_len;
use crate::boxes::opt_bytes;
use crate::boxes::opt_wf;
use crate::boxes::lemma_opt_bytes_len;
use crate::boxes::repeat_byte;
use crate::boxes::lemma_repeat_byte_len;
use crate::boxes::FourCC;
use crate::boxes::HdlrBox;
use crate::boxes::MetaBox;
use crate::boxes::Av1CBox;
use crate::boxes::ColrBox;

/// The fixed 3x3 transformation matrix every header carries: identity.
pub open spec fn spec_unity_matrix() -> Seq<u8> {
    spec_u32_be(0x00010000) + spec_u32_be(0) + spec_u32_be(0) + spec_u32_be(0) + spec_u32_be(
        0x00010000,
    ) + spec_u32_be(0) + spec_u32_be(0) + spec_u32_be(0) + spec_u32_be(0x40000000)
}

pub fn push_unity_matrix(out: &mut Vec<u8>)
    ensures
        final(out)@ == old(out)@ + spec_unity_matrix(),
{
    push_u32(out, 0x00010000);
    push_u32(out, 0);
    push_u32(out, 0);
    push_u32(out, 0);
    push_u32(out, 0x00010000);
    push_u32(out, 0);
    push_u32(out, 0);
    push_u32(out, 0);
    push_u32(out, 0x40000000);
    assert(out@ =~= old(out)@ + spec_unity_matrix());
}

/// Movie Header box.
#[derive(Debug, Clone)]
pub struct MvhdBox {
    pub creation_time: u64,
    pub modification_time: u64,
    pub timescale: u32,
    pub duration: u64,
    pub next_track_id: u32,
}

impl MpegBox for MvhdBox {
    open spec fn wf(&self) -> bool {
        true
    }

    open spec fn spec_len(&self) -> nat {
        (FULL_BOX_SIZE + 108) as nat
    }

    open spec fn spec_bytes(&self) -> Seq<u8> {
        spec_u32_be(self.spec_len() as u32) + seq![109u8, 118u8, 104u8, 100u8]  // "mvhd"
        + spec_version_flags(1, 0) + spec_u64_be(self.creation_time) + spec_u64_be(
            self.modification_time,
        ) + spec_u32_be(self.timescale) + spec_u64_be(self.duration) + spec_u32_be(0x00010000)
            + spec_u16_be(0x0100) + spec_u16_be(0) + spec_u32_be(0) + spec_u32_be(0)
            + spec_unity_matrix() + spec_u32_be(0) + spec_u32_be(0) + spec_u32_be(0) + spec_u32_be(
            0,
        ) + spec_u32_be(0) + spec_u32_be(0) + spec_u32_be(self.next_track_id)
    }

    proof fn lemma_bytes_len(&self) {
    }

    fn len(&self) -> (r: usize) {
        FULL_BOX_SIZE + 108
    }

    #[verifier::rlimit(100)]
    fn write(&self, out: &mut Vec<u8>) {
        push_full_box_header(out, self.len() as u32, [109u8, 118u8, 104u8, 100u8], 1, 0);
        push_u64(out, self.creation_time);
        push_u64(out, self.modification_time);
        push_u32(out, self.timescale);
        push_u64(out, self.duration);
        push_u32(out, 0x00010000);  // rate
        push_u16(out, 0x0100);  // volume
        push_u16(out, 0);  // reserved
        push_u32(out, 0);  // reserved
        push_u32(out, 0);  // reserved
        push_unity_matrix(out);
        push_u32(out, 0);  // predefined
        push_u32(out, 0);  // predefined
        push_u32(out, 0);  // predefined
        push_u32(out, 0);  // predefined
        push_u32(out, 0);  // predefined
        push_u32(out, 0);  // predefined
        push_u32(out, self.next_track_id);
        assert(out@ =~= old(out)@ + self.spec_bytes());
    }
}

/// Track Header box.
#[derive(Debug, Clone)]
pub struct TkhdBox {
    pub creation_time: u64,
    pub modification_time: u64,
    pub track_id: u32,
    pub duration: u64,
    pub width: u32,
    pub height: u32,
}

impl MpegBox for TkhdBox {
    open spec fn wf(&self) -> bool {
        true
    }

    open spec fn spec_len(&self) -> nat {
        (FULL_BOX_SIZE + 92) as nat
    }

    open spec fn spec_bytes(&self) -> Seq<u8> {
        spec_u32_be(self.spec_len() as u32) + seq![116u8, 107u8, 104u8, 100u8]  // "tkhd"
        + spec_version_flags(1, 1) + spec_u64_be(self.creation_time) + spec_u64_be(
            self.modification_time,
        ) + spec_u32_be(self.track_id) + spec_u32_be(0) + spec_u64_be(self.duration) + spec_u32_be(
            0,
        ) + spec_u32_be(0) + spec_u16_be(0) + spec_u16_be(0) + spec_u16_be(0) + spec_u16_be(0)
            + spec_unity_matrix() + spec_u32_be(self.width) + spec_u32_be(self.height)
    }

    proof fn lemma_bytes_len(&self) {
    }

    fn len(&self) -> (r: usize) {
        FULL_BOX_SIZE + 92
    }

    #[verifier::rlimit(100)]
    fn write(&self, out: &mut Vec<u8>) {
        push_full_box_header(out, self.len() as u32, [116u8, 107u8, 104u8, 100u8], 1, 1);
        push_u64(out, self.creation_time);
        push_u64(out, self.modification_time);
        push_u32(out, self.track_id);
        push_u32(out, 0);  // reserved
        push_u64(out, self.duration);
        push_u32(out, 0);  // reserved
        push_u32(out, 0);  // reserved
        push_u16(out, 0);  // layer
        push_u16(out, 0);  // alternate_group
        push_u16(out, 0);  // volume
        push_u16(out, 0);  // reserved
        push_unity_matrix(out);
        push_u32(out, self.width);
        push_u32(out, self.height);
        assert(out@ =~= old(out)@ + self.spec_bytes());
    }
}

/// One typed track reference.
#[derive(Debug, Clone)]
pub struct ReftypeBox {
    pub typ: FourCC,
    pub to_id: u32,
}

impl MpegBox for ReftypeBox {
    open spec fn wf(&self) -> bool {
        true
    }

    open spec fn spec_len(&self) -> nat {
        (BASIC_BOX_SIZE + 4) as nat
    }

    open spec fn spec_bytes(&self) -> Seq<u8> {
        spec_u32_be(self.spec_len() as u32) + self.typ.0@ + spec_u32_be(self.to_id)
    }

    proof fn lemma_bytes_len(&self) {
    }

    fn len(&self) -> (r: usize) {
        BASIC_BOX_SIZE + 4
    }

    fn write(&self, out: &mut Vec<u8>) {
        push_box_header(out, self.len() as u32, self.typ.0);
        push_u32(out, self.to_id);
        assert(out@ =~= old(out)@ + self.spec_bytes());
    }
}

/// Track Reference box.
#[derive(Debug, Clone)]
pub struct TrefBox {
    pub ref_type: ReftypeBox,
}

impl MpegBox for TrefBox {
    open spec fn wf(&self) -> bool {
        true
    }

    open spec fn spec_len(&self) -> nat {
        (BASIC_BOX_SIZE + self.ref_type.spec_len()) as nat
    }

    open spec fn spec_bytes(&self) -> Seq<u8> {
        spec_u32_be(self.spec_len() as u32) + seq![116u8, 114u8, 101u8, 102u8]  // "tref"
        + self.ref_type.spec_bytes()
    }

    proof fn lemma_bytes_len(&self) {
        self.ref_type.lemma_bytes_len();
    }

    fn len(&self) -> (r: usize) {
        BASIC_BOX_SIZE + self.ref_type.len()
    }

    fn write(&self, out: &mut Vec<u8>) {
        push_box_header(out, self.len() as u32, [116u8, 114u8, 101u8, 102u8]);
        self.ref_type.write(out);
        assert(out@ =~= old(out)@ + self.spec_bytes());
    }
}

/// Media Header box.
#[derive(Debug, Clone)]
pub struct MdhdBox {
    pub creation_time: u64,
    pub modification_time: u64,
    pub timescale: u32,
    pub duration: u64,
}

impl MpegBox for MdhdBox {
    open spec fn wf(&self) -> bool {
        true
    }

    open spec fn spec_len(&self) -> nat {
        (FULL_BOX_SIZE + 32) as nat
    }

    open spec fn spec_bytes(&self) -> Seq<u8> {
        spec_u32_be(self.spec_len() as u32) + seq![109u8, 100u8, 104u8, 100u8]  // "mdhd"
        + spec_version_flags(1, 0) + spec_u64_be(self.creation_time) + spec_u64_be(
            self.modification_time,
        ) + spec_u32_be(self.timescale) + spec_u64_be(self.duration) + spec_u16_be(21956)
            + spec_u16_be(0)
    }

    proof fn lemma_bytes_len(&self) {
    }

    fn len(&self) -> (r: usize) {
        FULL_BOX_SIZE + 32
    }

    fn write(&self, out: &mut Vec<u8>) {
        push_full_box_header(out, self.len() as u32, [109u8, 100u8, 104u8, 100u8], 1, 0);
        push_u64(out, self.creation_time);
        push_u64(out, self.modification_time);
        push_u32(out, self.timescale);
        push_u64(out, self.duration);
        push_u16(out, 21956);  // packed ISO-639 language code "und"
        push_u16(out, 0);  // pre_defined
        assert(out@ =~= old(out)@ + self.spec_bytes());
    }
}

/// Video Media Header box.
#[derive(Debug, Clone)]
pub struct VmhdBox {}

impl MpegBox for VmhdBox {
    open spec fn wf(&self) -> bool {
        true
    }

    open spec fn spec_len(&self) -> nat {
        (FULL_BOX_SIZE + 8) as nat
    }

    open spec fn spec_bytes(&self) -> Seq<u8> {
        spec_u32_be(self.spec_len() as u32) + seq![118u8, 109u8, 104u8, 100u8]  // "vmhd"
        + spec_version_flags(0, 1) + spec_u16_be(0) + spec_u16_be(0) + spec_u16_be(0) + spec_u16_be(
            0,
        )
    }

    proof fn lemma_bytes_len(&self) {
    }

    fn len(&self) -> (r: usize) {
        FULL_BOX_SIZE + 8
    }

    fn write(&self, out: &mut Vec<u8>) {
        push_full_box_header(out, self.len() as u32, [118u8, 109u8, 104u8, 100u8], 0, 1);
        push_u16(out, 0);  // graphicsmode
        push_u16(out, 0);  // opcolor
        push_u16(out, 0);  // opcolor
        push_u16(out, 0);  // opcolor
        assert(out@ =~= old(out)@ + self.spec_bytes());
    }
}

/// Data entry box: the media data lives in this very file.
#[derive(Debug, Clone)]
pub struct UrlBox {}

impl MpegBox for UrlBox {
    open spec fn wf(&self) -> bool {
        true
    }

    open spec fn spec_len(&self) -> nat {
        FULL_BOX_SIZE as nat
    }

    open spec fn spec_bytes(&self) -> Seq<u8> {
        spec_u32_be(self.spec_len() as u32) + seq![117u8, 114u8, 108u8, 32u8]  // "url "
        + spec_version_flags(0, 1)
    }

    proof fn lemma_bytes_len(&self) {
    }

    fn len(&self) -> (r: usize) {
        FULL_BOX_SIZE
    }

    fn write(&self, out: &mut Vec<u8>) {
        push_full_box_header(out, self.len() as u32, [117u8, 114u8, 108u8, 32u8], 0, 1);
        assert(out@ =~= old(out)@ + self.spec_bytes());
    }
}

/// Data Reference box.
#[derive(Debug, Clone)]
pub struct DrefBox {
    pub url: UrlBox,
}

impl MpegBox for DrefBox {
    open spec fn wf(&self) -> bool {
        true
    }

    open spec fn spec_len(&self) -> nat {
        (FULL_BOX_SIZE + 4 + self.url.spec_len()) as nat
    }

    open spec fn spec_bytes(&self) -> Seq<u8> {
        spec_u32_be(self.spec_len() as u32) + seq![100u8, 114u8, 101u8, 102u8]  // "dref"
        + spec_version_flags(0, 0) + spec_u32_be(1) + self.url.spec_bytes()
    }

    proof fn lemma_bytes_len(&self) {
        self.url.lemma_bytes_len();
    }

    fn len(&self) -> (r: usize) {
        FULL_BOX_SIZE + 4 + self.url.len()
    }

    fn write(&self, out: &mut Vec<u8>) {
        push_full_box_header(out, self.len() as u32, [100u8, 114u8, 101u8, 102u8], 0, 0);
        push_u32(out, 1);  // entry_count
        self.url.write(out);
        assert(out@ =~= old(out)@ + self.spec_bytes());
    }
}

/// Data Information box.
#[derive(Debug, Clone)]
pub struct DinfBox {
    pub dref: DrefBox,
}

impl MpegBox for DinfBox {
    open spec fn wf(&self) -> bool {
        true
    }

    open spec fn spec_len(&self) -> nat {
        (BASIC_BOX_SIZE + self.dref.spec_len()) as nat
    }

    open spec fn spec_bytes(&self) -> Seq<u8> {
        spec_u32_be(self.spec_len() as u32) + seq![100u8, 105u8, 110u8, 102u8]  // "dinf"
        + self.dref.spec_bytes()
    }

    proof fn lemma_bytes_len(&self) {
        self.dref.lemma_bytes_len();
    }

    fn len(&self) -> (r: usize) {
        BASIC_BOX_SIZE + self.dref.len()
    }

    fn write(&self, out: &mut Vec<u8>) {
        push_box_header(out, self.len() as u32, [100u8, 105u8, 110u8, 102u8]);
        self.dref.write(out);
        assert(out@ =~= old(out)@ + self.spec_bytes());
    }
}

/// Coding Constraints box.
#[derive(Debug, Clone)]
pub struct CcstBox {}

impl MpegBox for CcstBox {
    open spec fn wf(&self) -> bool {
        true
    }

    open spec fn spec_len(&self) -> nat {
        (FULL_BOX_SIZE + 4) as nat
    }

    open spec fn spec_bytes(&self) -> Seq<u8> {
        spec_u32_be(self.spec_len() as u32) + seq![99u8, 99u8, 115u8, 116u8]  // "ccst"
        + spec_version_flags(0, 0) + spec_u32_be(0x7C000000)
    }

    proof fn lemma_bytes_len(&self) {
    }

    fn len(&self) -> (r: usize) {
        FULL_BOX_SIZE + 4
    }

    fn write(&self, out: &mut Vec<u8>) {
        push_full_box_header(out, self.len() as u32, [99u8, 99u8, 115u8, 116u8], 0, 0);
        // intra_pred_used set, max_ref_per_pic 15, the rest reserved zero
        push_u32(out, 0x7C000000);
        assert(out@ =~= old(out)@ + self.spec_bytes());
    }
}

/// Auxiliary track type box.
#[derive(Debug, Clone)]
pub struct AuxiBox {
    pub aux_track_type: &'static str,
}

impl MpegBox for AuxiBox {
    open spec fn wf(&self) -> bool {
        true
    }

    open spec fn spec_len(&self) -> nat {
        (FULL_BOX_SIZE + self.aux_track_type.spec_bytes().len() + 1) as nat
    }

    open spec fn spec_bytes(&self) -> Seq<u8> {
        spec_u32_be(self.spec_len() as u32) + seq![97u8, 117u8, 120u8, 105u8]  // "auxi"
        + spec_version_flags(0, 0) + self.aux_track_type.spec_bytes() + seq![0u8]
    }

    proof fn lemma_bytes_len(&self) {
    }

    fn len(&self) -> (r: usize) {
        FULL_BOX_SIZE + self.aux_track_type.len() + 1
    }

    fn write(&self, out: &mut Vec<u8>) {
        push_full_box_header(out, self.len() as u32, [97u8, 117u8, 120u8, 105u8], 0, 0);
        push_bytes(out, self.aux_track_type.as_bytes());
        push_u8(out, 0);
        assert(out@ =~= old(out)@ + self.spec_bytes());
    }
}

/// The one sample description every track carries.
#[derive(Debug, Clone)]
pub struct SampleEntryBox {
    pub typ: FourCC,
    pub width: u16,
    pub height: u16,
    pub config: Av1CBox,
    pub colr: Option<ColrBox>,
    pub ccst: CcstBox,
    pub auxi: Option<AuxiBox>,
}

impl SampleEntryBox {
    /// The fixed 78-byte field block between the header and the nested boxes.
    pub open spec fn spec_fixed_fields(&self) -> Seq<u8> {
        repeat_byte(0, 6) + spec_u16_be(1) + spec_u16_be(0) + spec_u16_be(0) + spec_u32_be(0)
            + spec_u32_be(0) + spec_u32_be(0) + spec_u16_be(self.width) + spec_u16_be(self.height)
            + spec_u32_be(0x00480000) + spec_u32_be(0x00480000) + spec_u32_be(0) + spec_u16_be(1)
            + seq![3u8, 65u8, 79u8, 77u8] + repeat_byte(0, 28) + spec_u16_be(0x0018) + spec_u16_be(
            0xffff,
        )
    }

    pub proof fn lemma_fixed_fields_len(&self)
        ensures
            self.spec_fixed_fields().len() == 78,
    {
        lemma_repeat_byte_len(0, 6);
        lemma_repeat_byte_len(0, 28);
    }
}

impl MpegBox for SampleEntryBox {
    open spec fn wf(&self) -> bool {
        true
    }

    open spec fn spec_len(&self) -> nat {
        (BASIC_BOX_SIZE + 78 + self.config.spec_len() + opt_len(self.colr) + self.ccst.spec_len()
            + opt_len(self.auxi)) as nat
    }

    open spec fn spec_bytes(&self) -> Seq<u8> {
        spec_u32_be(self.spec_len() as u32) + self.typ.0@ + self.spec_fixed_fields()
            + self.config.spec_bytes() + opt_bytes(self.colr) + self.ccst.spec_bytes() + opt_bytes(
            self.auxi,
        )
    }

    proof fn lemma_bytes_len(&self) {
        self.lemma_fixed_fields_len();
        self.config.lemma_bytes_len();
        lemma_opt_bytes_len(self.colr);
        self.ccst.lemma_bytes_len();
        lemma_opt_bytes_len(self.auxi);
    }

    fn len(&self) -> (r: usize) {
        BASIC_BOX_SIZE + 78 + self.config.len() + (match &self.colr {
            Some(c) => c.len(),
            None => 0,
        }) + self.ccst.len() + (match &self.auxi {
            Some(a) => a.len(),
            None => 0,
        })
    }

    #[verifier::rlimit(100)]
    fn write(&self, out: &mut Vec<u8>) {
        push_box_header(out, self.len() as u32, self.typ.0);
        let ghost hdr = out@;
        let ghost r0 = out@;
        let mut j: u8 = 0;
        while j < 6
            invariant
                j <= 6,
                out@ == r0 + repeat_byte(0, j as nat),
            decreases 6 - j,
        {
            push_u8(out, 0);  // reserved
            j = j + 1;
        }
        push_u16(out, 1);  // data_reference_index
        push_u16(out, 0);  // pre_defined
        push_u16(out, 0);  // reserved
        push_u32(out, 0);  // pre_defined
        push_u32(out, 0);  // pre_defined
        push_u32(out, 0);  // pre_defined
        push_u16(out, self.width);
        push_u16(out, self.height);
        push_u32(out, 0x00480000);  // horiz_resolution
        push_u32(out, 0x00480000);  // vert_resolution
        push_u32(out, 0);  // reserved
        push_u16(out, 1);  // frame_count
        push_bytes(out, [3u8, 65u8, 79u8, 77u8].as_slice());  // compressorname
        let ghost r1 = out@;
        let mut k: u8 = 0;
        while k < 28
            invariant
                k <= 28,
                out@ == r1 + repeat_byte(0, k as nat),
            decreases 28 - k,
        {
            push_u8(out, 0);
            k = k + 1;
        }
        push_u16(out, 0x0018);  // depth
        push_u16(out, 0xffff);  // pre_defined
        assert(out@ =~= hdr + self.spec_fixed_fields());
        self.config.write(out);
        match &self.colr {
            Some(c) => c.write(out),
            None => {},
        }
        self.ccst.write(out);
        match &self.auxi {
            Some(a) => a.write(out),
            None => {},
        }
        assert(out@ =~= old(out)@ + self.spec_bytes());
    }
}

/// Sample Description box.
#[derive(Debug, Clone)]
pub struct StsdBox {
    pub entry: SampleEntryBox,
}

impl MpegBox for StsdBox {
    open spec fn wf(&self) -> bool {
        true
    }

    open spec fn spec_len(&self) -> nat {
        (FULL_BOX_SIZE + 4 + self.entry.spec_len()) as nat
    }

    open spec fn spec_bytes(&self) -> Seq<u8> {
        spec_u32_be(self.spec_len() as u32) + seq![115u8, 116u8, 115u8, 100u8]  // "stsd"
        + spec_version_flags(0, 0) + spec_u32_be(1) + self.entry.spec_bytes()
    }

    proof fn lemma_bytes_len(&self) {
        self.entry.lemma_bytes_len();
    }

    fn len(&self) -> (r: usize) {
        FULL_BOX_SIZE + 4 + self.entry.len()
    }

    fn write(&self, out: &mut Vec<u8>) {
        push_full_box_header(out, self.len() as u32, [115u8, 116u8, 115u8, 100u8], 0, 0);
        push_u32(out, 1);  // entry_count
        self.entry.write(out);
        assert(out@ =~= old(out)@ + self.spec_bytes());
    }
}

/// One run of equal-duration samples: how many, and their shared duration.
#[derive(Debug, Copy, Clone, PartialEq, Eq, Structural)]
pub struct SttsEntry {
    pub sample_count: u32,
    pub sample_delta: u32,
}

impl MpegBox for SttsEntry {
    open spec fn wf(&self) -> bool {
        true
    }

    open spec fn spec_len(&self) -> nat {
        8
    }

    open spec fn spec_bytes(&self) -> Seq<u8> {
        spec_u32_be(self.sample_count) + spec_u32_be(self.sample_delta)
    }

    proof fn lemma_bytes_len(&self) {
    }

    fn len(&self) -> (r: usize) {
        8
    }

    fn write(&self, out: &mut Vec<u8>) {
        push_u32(out, self.sample_count);
        push_u32(out, self.sample_delta);
        assert(out@ =~= old(out)@ + self.spec_bytes());
    }
}

/// A list of duration runs occupies eight bytes per entry.
pub proof fn lemma_stts_list_len(s: Seq<SttsEntry>)
    ensures
        boxes_len(s) == 8 * s.len(),
    decreases s.len(),
{
    if s.len() > 0 {
        lemma_stts_list_len(s.drop_last());
    }
}

/// Decoding Time to Sample box: run-length-encoded frame durations.
#[derive(Debug, Clone)]
pub struct SttsBox {
    pub sample_delta: Vec<SttsEntry>,
}

impl MpegBox for SttsBox {
    open spec fn wf(&self) -> bool {
        true
    }

    open spec fn spec_len(&self) -> nat {
        (FULL_BOX_SIZE + 4 + boxes_len(self.sample_delta@)) as nat
    }

    open spec fn spec_bytes(&self) -> Seq<u8> {
        spec_u32_be(self.spec_len() as u32) + seq![115u8, 116u8, 116u8, 115u8]  // "stts"
        + spec_version_flags(0, 0) + spec_u32_be(self.sample_delta@.len() as u32) + boxes_bytes(
            self.sample_delta@,
        )
    }

    proof fn lemma_bytes_len(&self) {
        lemma_boxes_bytes_len(self.sample_delta@);
    }

    fn len(&self) -> (r: usize) {
        FULL_BOX_SIZE + 4 + boxes_total_len(&self.sample_delta)
    }

    fn write(&self, out: &mut Vec<u8>) {
        push_full_box_header(out, self.len() as u32, [115u8, 116u8, 116u8, 115u8], 0, 0);
        push_u32(out, self.sample_delta.len() as u32);
        write_boxes(&self.sample_delta, out);
        assert(out@ =~= old(out)@ + self.spec_bytes());
    }
}

/// Sample to Chunk box: one chunk holding every sample of the track.
#[derive(Debug, Clone)]
pub struct StscBox {
    pub samples_per_chunk: u32,
}

impl MpegBox for StscBox {
    open spec fn wf(&self) -> bool {
        true
    }

    open spec fn spec_len(&self) -> nat {
        (FULL_BOX_SIZE + 16) as nat
    }

    open spec fn spec_bytes(&self) -> Seq<u8> {
        spec_u32_be(self.spec_len() as u32) + seq![115u8, 116u8, 115u8, 99u8]  // "stsc"
        + spec_version_flags(0, 0) + spec_u32_be(1) + spec_u32_be(1) + spec_u32_be(
            self.samples_per_chunk,
        ) + spec_u32_be(1)
    }

    proof fn lemma_bytes_len(&self) {
    }

    fn len(&self) -> (r: usize) {
        FULL_BOX_SIZE + 16
    }

    fn write(&self, out: &mut Vec<u8>) {
        push_full_box_header(out, self.len() as u32, [115u8, 116u8, 115u8, 99u8], 0, 0);
        push_u32(out, 1);  // entry_count
        push_u32(out, 1);  // first_chunk
        push_u32(out, self.samples_per_chunk);
        push_u32(out, 1);  // sample_description_index
        assert(out@ =~= old(out)@ + self.spec_bytes());
    }
}

impl MpegBox for u32 {
    open spec fn wf(&self) -> bool {
        true
    }

    open spec fn spec_len(&self) -> nat {
        4
    }

    open spec fn spec_bytes(&self) -> Seq<u8> {
        spec_u32_be(*self)
    }

    proof fn lemma_bytes_len(&self) {
    }

    fn len(&self) -> (r: usize) {
        4
    }

    fn write(&self, out: &mut Vec<u8>) {
        push_u32(out, *self);
    }
}

/// A list of 32-bit entries occupies four bytes per entry.
pub proof fn lemma_u32_list_len(s: Seq<u32>)
    ensures
        boxes_len(s) == 4 * s.len(),
    decreases s.len(),
{
    if s.len() > 0 {
        lemma_u32_list_len(s.drop_last());
    }
}

/// Sample Size box: one size entry per frame, uncompressed.
#[derive(Debug, Clone)]
pub struct StszBox {
    pub sample_count: u32,
    pub entry_size: Vec<u32>,
}

impl MpegBox for StszBox {
    open spec fn wf(&self) -> bool {
        true
    }

    open spec fn spec_len(&self) -> nat {
        (FULL_BOX_SIZE + 8 + boxes_len(self.entry_size@)) as nat
    }

    open spec fn spec_bytes(&self) -> Seq<u8> {
        spec_u32_be(self.spec_len() as u32) + seq![115u8, 116u8, 115u8, 122u8]  // "stsz"
        + spec_version_flags(0, 0) + spec_u32_be(0) + spec_u32_be(self.sample_count) + boxes_bytes(
            self.entry_size@,
        )
    }

    proof fn lemma_bytes_len(&self) {
        lemma_boxes_bytes_len(self.entry_size@);
    }

    fn len(&self) -> (r: usize) {
        FULL_BOX_SIZE + 8 + boxes_total_len(&self.entry_size)
    }

    fn write(&self, out: &mut Vec<u8>) {
        push_full_box_header(out, self.len() as u32, [115u8, 116u8, 115u8, 122u8], 0, 0);
        push_u32(out, 0);  // sample_size: sizes differ per sample
        push_u32(out, self.sample_count);
        write_boxes(&self.entry_size, out);
        assert(out@ =~= old(out)@ + self.spec_bytes());
    }
}

/// Chunk Offset box: the absolute file offset of the track's one chunk.
#[derive(Debug, Clone)]
pub struct StcoBox {
    pub chunk_offset: u32,
}

impl MpegBox for StcoBox {
    open spec fn wf(&self) -> bool {
        true
    }

    open spec fn spec_len(&self) -> nat {
        (FULL_BOX_SIZE + 8) as nat
    }

    open spec fn spec_bytes(&self) -> Seq<u8> {
        spec_u32_be(self.spec_len() as u32) + seq![115u8, 116u8, 99u8, 111u8]  // "stco"
        + spec_version_flags(0, 0) + spec_u32_be(1) + spec_u32_be(self.chunk_offset)
    }

    proof fn lemma_bytes_len(&self) {
    }

    fn len(&self) -> (r: usize) {
        FULL_BOX_SIZE + 8
    }

    fn write(&self, out: &mut Vec<u8>) {
        push_full_box_header(out, self.len() as u32, [115u8, 116u8, 99u8, 111u8], 0, 0);
        push_u32(out, 1);  // entry_count
        push_u32(out, self.chunk_offset);
        assert(out@ =~= old(out)@ + self.spec_bytes());
    }
}

/// Sync Sample box: the 1-based indices of the random-access frames.
///
/// Omitted entirely when every frame is a sync frame.
#[derive(Debug, Clone)]
pub struct StssBox {
    pub entry_count: u32,
    pub sample_number: Vec<u32>,
}

impl MpegBox for StssBox {
    open spec fn wf(&self) -> bool {
        true
    }

    open spec fn spec_len(&self) -> nat {
        (FULL_BOX_SIZE + 4 + boxes_len(self.sample_number@)) as nat
    }

    open spec fn spec_bytes(&self) -> Seq<u8> {
        spec_u32_be(self.spec_len() as u32) + seq![115u8, 116u8, 115u8, 115u8]  // "stss"
        + spec_version_flags(0, 0) + spec_u32_be(self.entry_count) + boxes_bytes(
            self.sample_number@,
        )
    }

    proof fn lemma_bytes_len(&self) {
        lemma_boxes_bytes_len(self.sample_number@);
    }

    fn len(&self) -> (r: usize) {
        FULL_BOX_SIZE + 4 + boxes_total_len(&self.sample_number)
    }

    fn write(&self, out: &mut Vec<u8>) {
        push_full_box_header(out, self.len() as u32, [115u8, 116u8, 115u8, 115u8], 0, 0);
        push_u32(out, self.entry_count);
        write_boxes(&self.sample_number, out);
        assert(out@ =~= old(out)@ + self.spec_bytes());
    }
}

/// Sample Table box: all the per-frame tables of one track.
#[derive(Debug, Clone)]
pub struct StblBox {
    pub stsd: StsdBox,
    pub stts: SttsBox,
    pub stsc: StscBox,
    pub stsz: StszBox,
    pub stco: StcoBox,
    pub stss: Option<StssBox>,
}

impl MpegBox for StblBox {
    open spec fn wf(&self) -> bool {
        true
    }

    open spec fn spec_len(&self) -> nat {
        (BASIC_BOX_SIZE + self.stsd.spec_len() + self.stts.spec_len() + self.stsc.spec_len()
            + self.stsz.spec_len() + self.stco.spec_len() + opt_len(self.stss)) as nat
    }

    open spec fn spec_bytes(&self) -> Seq<u8> {
        spec_u32_be(self.spec_len() as u32) + seq![115u8, 116u8, 98u8, 108u8]  // "stbl"
        + self.stsd.spec_bytes() + self.stts.spec_bytes() + self.stsc.spec_bytes()
            + self.stsz.spec_bytes() + self.stco.spec_bytes() + opt_bytes(self.stss)
    }

    proof fn lemma_bytes_len(&self) {
        self.stsd.lemma_bytes_len();
        self.stts.lemma_bytes_len();
        self.stsc.lemma_bytes_len();
        self.stsz.lemma_bytes_len();
        self.stco.lemma_bytes_len();
        lemma_opt_bytes_len(self.stss);
    }

    fn len(&self) -> (r: usize) {
        BASIC_BOX_SIZE + self.stsd.len() + self.stts.len() + self.stsc.len() + self.stsz.len()
            + self.stco.len() + (match &self.stss {
            Some(s) => s.len(),
            None => 0,
        })
    }

    fn write(&self, out: &mut Vec<u8>) {
        push_box_header(out, self.len() as u32, [115u8, 116u8, 98u8, 108u8]);
        self.stsd.write(out);
        self.stts.write(out);
        self.stsc.write(out);
        self.stsz.write(out);
        self.stco.write(out);
        match &self.stss {
            Some(s) => s.write(out),
            None => {},
        }
        assert(out@ =~= old(out)@ + self.spec_bytes());
    }
}

/// Media Information box.
#[derive(Debug, Clone)]
pub struct MinfBox {
    pub vmhd: VmhdBox,
    pub dinf: DinfBox,
    pub stbl: StblBox,
}

impl MpegBox for MinfBox {
    open spec fn wf(&self) -> bool {
        true
    }

    open spec fn spec_len(&self) -> nat {
        (BASIC_BOX_SIZE + self.vmhd.spec_len() + self.dinf.spec_len() + self.stbl.spec_len()) as nat
    }

    open spec fn spec_bytes(&self) -> Seq<u8> {
        spec_u32_be(self.spec_len() as u32) + seq![109u8, 105u8, 110u8, 102u8]  // "minf"
        + self.vmhd.spec_bytes() + self.dinf.spec_bytes() + self.stbl.spec_bytes()
    }

    proof fn lemma_bytes_len(&self) {
        self.vmhd.lemma_bytes_len();
        self.dinf.lemma_bytes_len();
        self.stbl.lemma_bytes_len();
    }

    fn len(&self) -> (r: usize) {
        BASIC_BOX_SIZE + self.vmhd.len() + self.dinf.len() + self.stbl.len()
    }

    fn write(&self, out: &mut Vec<u8>) {
        push_box_header(out, self.len() as u32, [109u8, 105u8, 110u8, 102u8]);
        self.vmhd.write(out);
        self.dinf.write(out);
        self.stbl.write(out);
        assert(out@ =~= old(out)@ + self.spec_bytes());
    }
}

/// Media box: one elementary stream's headers and sample tables.
#[derive(Debug, Clone)]
pub struct MdiaBox {
    pub mdhd: MdhdBox,
    pub hdlr: HdlrBox,
    pub minf: MinfBox,
}

impl MpegBox for MdiaBox {
    open spec fn wf(&self) -> bool {
        true
    }

    open spec fn spec_len(&self) -> nat {
        (BASIC_BOX_SIZE + self.mdhd.spec_len() + self.hdlr.spec_len() + self.minf.spec_len()) as nat
    }

    open spec fn spec_bytes(&self) -> Seq<u8> {
        spec_u32_be(self.spec_len() as u32) + seq![109u8, 100u8, 105u8, 97u8]  // "mdia"
        + self.mdhd.spec_bytes() + self.hdlr.spec_bytes() + self.minf.spec_bytes()
    }

    proof fn lemma_bytes_len(&self) {
        self.mdhd.lemma_bytes_len();
        self.hdlr.lemma_bytes_len();
        self.minf.lemma_bytes_len();
    }

    fn len(&self) -> (r: usize) {
        BASIC_BOX_SIZE + self.mdhd.len() + self.hdlr.len() + self.minf.len()
    }

    fn write(&self, out: &mut Vec<u8>) {
        push_box_header(out, self.len() as u32, [109u8, 100u8, 105u8, 97u8]);
        self.mdhd.write(out);
        self.hdlr.write(out);
        self.minf.write(out);
        assert(out@ =~= old(out)@ + self.spec_bytes());
    }
}

/// Track box: one elementary stream over time.
#[derive(Debug, Clone)]
pub struct TrakBox {
    pub tkhd: TkhdBox,
    pub tref: Option<TrefBox>,
    pub meta: Option<MetaBox>,
    pub mdia: MdiaBox,
}

impl MpegBox for TrakBox {
    open spec fn wf(&self) -> bool {
        opt_wf(self.meta)
    }

    open spec fn spec_len(&self) -> nat {
        (BASIC_BOX_SIZE + self.tkhd.spec_len() + opt_len(self.tref) + opt_len(self.meta)
            + self.mdia.spec_len()) as nat
    }

    open spec fn spec_bytes(&self) -> Seq<u8> {
        spec_u32_be(self.spec_len() as u32) + seq![116u8, 114u8, 97u8, 107u8]  // "trak"
        + self.tkhd.spec_bytes() + opt_bytes(self.tref) + opt_bytes(self.meta)
            + self.mdia.spec_bytes()
    }

    proof fn lemma_bytes_len(&self) {
        self.tkhd.lemma_bytes_len();
        lemma_opt_bytes_len(self.tref);
        lemma_opt_bytes_len(self.meta);
        self.mdia.lemma_bytes_len();
    }

    fn len(&self) -> (r: usize) {
        BASIC_BOX_SIZE + self.tkhd.len() + (match &self.tref {
            Some(t) => t.len(),
            None => 0,
        }) + (match &self.meta {
            Some(m) => m.len(),
            None => 0,
        }) + self.mdia.len()
    }

    #[verifier::rlimit(100)]
    fn write(&self, out: &mut Vec<u8>) {
        push_box_header(out, self.len() as u32, [116u8, 114u8, 97u8, 107u8]);
        self.tkhd.write(out);
        match &self.tref {
            Some(t) => t.write(out),
            None => {},
        }
        match &self.meta {
            Some(m) => m.write(out),
            None => {},
        }
        self.mdia.write(out);
        assert(out@ =~= old(out)@ + self.spec_bytes());
    }
}

/// Movie box: the animation header and its tracks.
#[derive(Debug, Clone)]
pub struct MoovBox {
    pub mvhd: MvhdBox,
    pub tracks: Vec<TrakBox>,
}

impl MpegBox for MoovBox {
    open spec fn wf(&self) -> bool {
        boxes_wf(self.tracks@)
    }

    open spec fn spec_len(&self) -> nat {
        (BASIC_BOX_SIZE + self.mvhd.spec_len() + boxes_len(self.tracks@)) as nat
    }

    open spec fn spec_bytes(&self) -> Seq<u8> {
        spec_u32_be(self.spec_len() as u32) + seq![109u8, 111u8, 111u8, 118u8]  // "moov"
        + self.mvhd.spec_bytes() + boxes_bytes(self.tracks@)
    }

    proof fn lemma_bytes_len(&self) {
        self.mvhd.lemma_bytes_len();
        lemma_boxes_bytes_len(self.tracks@);
    }

    fn len(&self) -> (r: usize) {
        BASIC_BOX_SIZE + self.mvhd.len() + boxes_total_len(&self.tracks)
    }

    fn write(&self, out: &mut Vec<u8>) {
        push_box_header(out, self.len() as u32, [109u8, 111u8, 111u8, 118u8]);
        self.mvhd.write(out);
        write_boxes(&self.tracks, out);
        assert(out@ =~= old(out)@ + self.spec_bytes());
    }
}

/// Sum of a list of 32-bit sizes, as an unbounded number.
pub open spec fn u32_list_sum(s: Seq<u32>) -> nat
    decreases s.len(),
{
    if s.len() == 0 {
        0
    } else {
        (u32_list_sum(s.drop_last()) + s.last()) as nat
    }
}

pub proof fn lemma_u32_sum_step(s: Seq<u32>, i: int)
    requires
        0 <= i < s.len(),
    ensures
        u32_list_sum(s.subrange(0, i + 1)) == u32_list_sum(s.subrange(0, i)) + s[i],
{
    assert(s.subrange(0, i + 1).drop_last() =~= s.subrange(0, i));
    assert(s.subrange(0, i + 1).last() == s[i]);
}

pub proof fn lemma_u32_sum_prefix(s: Seq<u32>, i: int)
    requires
        0 <= i <= s.len(),
    ensures
        u32_list_sum(s.subrange(0, i)) <= u32_list_sum(s),
    decreases s.len() - i,
{
    if i == s.len() {
        assert(s.subrange(0, i) =~= s);
    } else {
        lemma_u32_sum_prefix(s, i + 1);
        lemma_u32_sum_step(s, i);
    }
}

/// Total coded size of one track's samples, per its size table.
pub open spec fn track_sample_total(t: TrakBox) -> nat {
    u32_list_sum(t.mdia.minf.stbl.stsz.entry_size@)
}

/// Sum of the sample totals of tracks `k` onward.
pub open spec fn tracks_suffix_total(s: Seq<TrakBox>, k: int) -> nat
    decreases s.len() - k,
{
    if k < 0 || k >= s.len() {
        0
    } else {
        track_sample_total(s[k]) + tracks_suffix_total(s, k + 1)
    }
}

/// Sums a track's sample-size table.
pub fn stsz_total(v: &Vec<u32>) -> (r: u32)
    requires
        u32_list_sum(v@) <= u32::MAX,
    ensures
        r == u32_list_sum(v@),
{
    let n = v.len();
    let mut total: u32 = 0;
    let mut i: usize = 0;
    while i < n
        invariant
            n == v@.len(),
            i <= n,
            u32_list_sum(v@) <= u32::MAX,
            total == u32_list_sum(v@.subrange(0, i as int)),
        decreases n - i,
    {
        proof {
            lemma_u32_sum_step(v@, i as int);
            lemma_u32_sum_prefix(v@, i as int + 1);
        }
        total = total + v[i];
        i = i + 1;
    }
    proof {
        assert(v@.subrange(0, n as int) =~= v@);
    }
    total
}

/// The same track with its chunk offset replaced.
pub open spec fn upd_stco(t: TrakBox, off: u32) -> TrakBox {
    TrakBox {
        tkhd: t.tkhd,
        tref: t.tref,
        meta: t.meta,
        mdia: MdiaBox {
            mdhd: t.mdia.mdhd,
            hdlr: t.mdia.hdlr,
            minf: MinfBox {
                vmhd: t.mdia.minf.vmhd,
                dinf: t.mdia.minf.dinf,
                stbl: StblBox {
                    stsd: t.mdia.minf.stbl.stsd,
                    stts: t.mdia.minf.stbl.stts,
                    stsc: t.mdia.minf.stbl.stsc,
                    stsz: t.mdia.minf.stbl.stsz,
                    stco: StcoBox { chunk_offset: off },
                    stss: t.mdia.minf.stbl.stss,
                },
            },
        },
    }
}

/// The chunk-offset assignment of the whole track list: the last track's
/// samples sit first in the payload, each earlier track's after all the
/// sample bytes of the tracks that follow it.
pub open spec fn stco_fixed_tracks(s: Seq<TrakBox>, base: nat) -> Seq<TrakBox> {
    Seq::new(s.len(), |i: int| upd_stco(s[i], (base + tracks_suffix_total(s, i + 1)) as u32))
}

pub proof fn lemma_upd_stco_len(t: TrakBox, off: u32)
    ensures
        upd_stco(t, off).spec_len() == t.spec_len(),
        upd_stco(t, off).wf() == t.wf(),
{
}

/// Track offset accumulation: with two tracks — color added first, alpha
/// second, the alpha samples sitting first in the payload — the color
/// track's resolved chunk offset equals the alpha track's chunk offset
/// plus the alpha track's total sample size.
pub proof fn lemma_track_offset_accumulation(tracks: Seq<TrakBox>, base: nat)
    requires
        tracks.len() == 2,
        base + tracks_suffix_total(tracks, 0) <= u32::MAX,
    ensures
        stco_fixed_tracks(tracks, base)[0].mdia.minf.stbl.stco.chunk_offset == stco_fixed_tracks(
            tracks,
            base,
        )[1].mdia.minf.stbl.stco.chunk_offset + track_sample_total(tracks[1]),
{
    assert(tracks_suffix_total(tracks, 2) == 0);
    assert(tracks_suffix_total(tracks, 1) == track_sample_total(tracks[1]));
}

pub proof fn lemma_suffix_total_bound(s: Seq<TrakBox>, k: int)
    requires
        0 <= k,
    ensures
        tracks_suffix_total(s, k) <= tracks_suffix_total(s, 0),
    decreases k,
{
    if k > 0 && k <= s.len() {
        lemma_suffix_total_bound(s, k - 1);
    } else if k > s.len() {
        lemma_suffix_total_bound(s, s.len() as int);
    }
}

} // verus!
