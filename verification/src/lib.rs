//! AVIF container serializer.
//!
//! Assembles a standards-compliant AVIF file (still image or image sequence)
//! from already-encoded AV1 payloads. The box tree reports its exact
//! serialized length before any byte is emitted, and every `write` is proved
//! to append exactly the bytes its spec describes.

use vstd::prelude::*;

pub mod boxes;
pub mod moov;
pub mod tables;
pub mod constants;
pub mod writer;

verus! {

use vstd::string::StringSliceAdditionalSpecFns;
use crate::boxes::MpegBox;
use crate::boxes::ColrBox;
use crate::boxes::Av1CBox;
use crate::boxes::spec_default_colr;
use crate::boxes::MetaBox;
use crate::boxes::HdlrBox;
use crate::boxes::IinfBox;
use crate::boxes::InfeBox;
use crate::boxes::PitmBox;
use crate::boxes::IlocBox;
use crate::boxes::IlocItem;
use crate::boxes::IlocExtent;
use crate::boxes::IlocOffset;
use crate::boxes::IprpBox;
use crate::boxes::IpcoBox;
use crate::boxes::IpcoProp;
use crate::boxes::IpmaBox;
use crate::boxes::IpmaEntry;
use crate::boxes::IrefBox;
use crate::boxes::IrefEntryBox;
use crate::boxes::IspeBox;
use crate::boxes::PixiBox;
use crate::boxes::AuxCBox;
use crate::boxes::FourCC;
use crate::boxes::FtypBox;
use crate::boxes::MdatBox;
use crate::boxes::DataChunk;
use crate::boxes::AvifFile;
use crate::boxes::opt_wf;
use vstd::slice::slice_to_vec;
use crate::moov::MoovBox;
use crate::moov::MvhdBox;
use crate::moov::TrakBox;
use crate::moov::TkhdBox;
use crate::moov::TrefBox;
use crate::moov::ReftypeBox;
use crate::moov::MdiaBox;
use crate::moov::MdhdBox;
use crate::moov::MinfBox;
use crate::moov::VmhdBox;
use crate::moov::DinfBox;
use crate::moov::DrefBox;
use crate::moov::UrlBox;
use crate::moov::StblBox;
use crate::moov::StsdBox;
use crate::moov::SampleEntryBox;
use crate::moov::CcstBox;
use crate::moov::AuxiBox;
use crate::moov::SttsBox;
use crate::moov::StscBox;
use crate::moov::StszBox;
use crate::moov::StcoBox;
use crate::moov::u32_list_sum;
use crate::moov::track_sample_total;
use crate::moov::tracks_suffix_total;
use crate::tables::durations_of;
use crate::tables::sizes_of;
use crate::tables::spec_duration_runs;
use crate::tables::spec_sync_indices;
use crate::tables::spec_total_duration;

/// Per-frame metadata for animated sequences.
#[derive(Debug, Copy, Clone)]
pub struct FrameInfo {
    pub duration_in_timescales: u64,
    pub sync: bool,
    pub size: u32,
}

/// Config for the serialization (allows setting advanced image properties).
pub struct Aviffy {
    pub premultiplied_alpha: bool,
    pub colr: ColrBox,
}

impl Aviffy {
    #[must_use]
    pub fn new() -> (r: Self)
        ensures
            r.premultiplied_alpha == false,
            r.colr == spec_default_colr(),
    {
        Aviffy { premultiplied_alpha: false, colr: ColrBox::default() }
    }

    /// Marks the image's color as premultiplied by alpha, so that decoders
    /// are instructed to undo the premultiplication.
    pub fn premultiplied_alpha(&mut self, is_premultiplied: bool) -> (r: &mut Self)
        ensures
            r.premultiplied_alpha == is_premultiplied,
            r.colr == old(self).colr,
            *final(self) == *final(r),
    {
        self.premultiplied_alpha = is_premultiplied;
        self
    }

    /// Sets the matrix coefficients carried by the `colr` box. Any
    /// non-default color description causes the box to be emitted.
    pub fn matrix_coefficients(
        &mut self,
        matrix_coefficients: crate::constants::MatrixCoefficients,
    ) -> (r: &mut Self)
        ensures
            r.premultiplied_alpha == old(self).premultiplied_alpha,
            r.colr.matrix_coefficients == matrix_coefficients,
            r.colr.color_primaries == old(self).colr.color_primaries,
            r.colr.transfer_characteristics == old(self).colr.transfer_characteristics,
            r.colr.full_range_flag == old(self).colr.full_range_flag,
            *final(self) == *final(r),
    {
        self.colr.matrix_coefficients = matrix_coefficients;
        self
    }

    /// Sets the transfer characteristics carried by the `colr` box.
    pub fn transfer_characteristics(
        &mut self,
        transfer_characteristics: crate::constants::TransferCharacteristics,
    ) -> (r: &mut Self)
        ensures
            r.premultiplied_alpha == old(self).premultiplied_alpha,
            r.colr.transfer_characteristics == transfer_characteristics,
            r.colr.color_primaries == old(self).colr.color_primaries,
            r.colr.matrix_coefficients == old(self).colr.matrix_coefficients,
            r.colr.full_range_flag == old(self).colr.full_range_flag,
            *final(self) == *final(r),
    {
        self.colr.transfer_characteristics = transfer_characteristics;
        self
    }

    /// Sets the color primaries carried by the `colr` box.
    pub fn color_primaries(&mut self, color_primaries: crate::constants::ColorPrimaries) -> (r:
        &mut Self)
        ensures
            r.premultiplied_alpha == old(self).premultiplied_alpha,
            r.colr.color_primaries == color_primaries,
            r.colr.transfer_characteristics == old(self).colr.transfer_characteristics,
            r.colr.matrix_coefficients == old(self).colr.matrix_coefficients,
            r.colr.full_range_flag == old(self).colr.full_range_flag,
            *final(self) == *final(r),
    {
        self.colr.color_primaries = color_primaries;
        self
    }

    /// Sets whether the color values cover the full numeric range.
    pub fn full_color_range(&mut self, full_range: bool) -> (r: &mut Self)
        ensures
            r.premultiplied_alpha == old(self).premultiplied_alpha,
            r.colr.full_range_flag == full_range,
            r.colr.color_primaries == old(self).colr.color_primaries,
            r.colr.transfer_characteristics == old(self).colr.transfer_characteristics,
            r.colr.matrix_coefficients == old(self).colr.matrix_coefficients,
            *final(self) == *final(r),
    {
        self.colr.full_range_flag = full_range;
        self
    }
}

/// The AV1 configuration record of the color item for a given bit depth.
pub open spec fn spec_color_config(depth_bits: u8) -> Av1CBox {
    Av1CBox {
        seq_profile: if depth_bits >= 12 {
            2
        } else {
            1
        },
        seq_level_idx_0: 31,
        seq_tier_0: false,
        high_bitdepth: depth_bits >= 10,
        twelve_bit: depth_bits >= 12,
        monochrome: false,
        chroma_subsampling_x: false,
        chroma_subsampling_y: false,
        chroma_sample_position: 0,
    }
}

/// The AV1 configuration record of the alpha item for a given bit depth.
pub open spec fn spec_alpha_config(depth_bits: u8) -> Av1CBox {
    Av1CBox {
        seq_profile: if depth_bits >= 12 {
            2
        } else {
            0
        },
        seq_level_idx_0: 31,
        seq_tier_0: false,
        high_bitdepth: depth_bits >= 10,
        twelve_bit: depth_bits >= 12,
        monochrome: true,
        chroma_subsampling_x: true,
        chroma_subsampling_y: true,
        chroma_sample_position: 0,
    }
}

pub fn make_color_config(depth_bits: u8) -> (r: Av1CBox)
    ensures
        r == spec_color_config(depth_bits),
{
    Av1CBox {
        seq_profile: if depth_bits >= 12 {
            2
        } else {
            1
        },
        seq_level_idx_0: 31,
        seq_tier_0: false,
        high_bitdepth: depth_bits >= 10,
        twelve_bit: depth_bits >= 12,
        monochrome: false,
        chroma_subsampling_x: false,
        chroma_subsampling_y: false,
        chroma_sample_position: 0,
    }
}

pub fn make_alpha_config(depth_bits: u8) -> (r: Av1CBox)
    ensures
        r == spec_alpha_config(depth_bits),
{
    Av1CBox {
        seq_profile: if depth_bits >= 12 {
            2
        } else {
            0
        },
        seq_level_idx_0: 31,
        seq_tier_0: false,
        high_bitdepth: depth_bits >= 10,
        twelve_bit: depth_bits >= 12,
        monochrome: true,
        chroma_subsampling_x: true,
        chroma_subsampling_y: true,
        chroma_sample_position: 0,
    }
}

/// Serialized length of the type box: four brands when animated, three when
/// still.
pub open spec fn spec_ftyp_len(animated: bool) -> nat {
    if animated {
        32
    } else {
        28
    }
}

/// Serialized length of the metadata box for a given file shape.
pub open spec fn spec_meta_len(has_alpha: bool, premultiplied: bool, has_colr: bool) -> nat {
    (12int + 40 + 14  // full header, handler, primary item
    + (if has_alpha {
        44int
    } else {
        30int
    })  // item locations
    + (if has_alpha {
        66int
    } else {
        40int
    })  // item infos
    + (if has_alpha {
        26int
    } else {
        0int
    })  // auxiliary reference
    + (if has_alpha && premultiplied {
        26int
    } else {
        0int
    })  // premultiplication reference
    + 8  // properties header
    + 8 + 48 + (if has_colr {
        19int
    } else {
        0int
    }) + (if has_alpha {
        82int
    } else {
        0int
    })  // property pool
    + 16 + 6 + (if has_colr {
        1int
    } else {
        0int
    }) + (if has_alpha {
        7int
    } else {
        0int
    })  // associations
    ) as nat
}

/// Serialized length of one track's sample table, given its sample entry
/// length and its frames.
pub open spec fn spec_stbl_len(entry_len: nat, frames: Seq<FrameInfo>) -> nat {
    (8 + (16 + entry_len)  // header, sample description
    + (16 + 8 * spec_duration_runs(durations_of(frames)).len())  // durations
    + 28  // sample-to-chunk
    + (20 + 4 * frames.len())  // sizes
    + 20  // chunk offset
    + (if spec_sync_indices(frames).len() == frames.len() {
        0int
    } else {
        16int + 4 * spec_sync_indices(frames).len()
    })) as nat
}

/// Serialized length of one track.
pub open spec fn spec_trak_len(entry_len: nat, frames: Seq<FrameInfo>, has_tref: bool) -> nat {
    (8int + 104 + (if has_tref {
        20int
    } else {
        0int
    }) + 8 + 44 + 40 + 8 + 20 + 36 + spec_stbl_len(entry_len, frames)) as nat
}

/// Serialized length of the movie box. The color sample entry carries a
/// `colr` box (133 bytes in all); the alpha entry an `auxi` box (170).
pub open spec fn spec_moov_len(cf: Seq<FrameInfo>, af: Option<Seq<FrameInfo>>) -> nat {
    (8 + 120 + spec_trak_len(133, cf, false) + (match af {
        Some(a) => spec_trak_len(170, a, true),
        None => 0,
    })) as nat
}

/// Where the payload box's content will begin: everything before it, plus
/// the payload box header.
pub open spec fn spec_mdat_base(
    premultiplied: bool,
    has_colr: bool,
    has_alpha: bool,
    cf: Option<Seq<FrameInfo>>,
    af: Option<Seq<FrameInfo>>,
) -> nat {
    (spec_ftyp_len(cf.is_some()) + spec_meta_len(has_alpha, premultiplied, has_colr) + (match cf {
        Some(c) => spec_moov_len(c, af),
        None => 0,
    }) + 8) as nat
}

/// Exact serialized length of the whole file, before any byte exists.
pub open spec fn spec_file_len(
    premultiplied: bool,
    has_colr: bool,
    color_len: nat,
    alpha_len: Option<nat>,
    cf: Option<Seq<FrameInfo>>,
    af: Option<Seq<FrameInfo>>,
) -> nat {
    (spec_mdat_base(premultiplied, has_colr, alpha_len.is_some(), cf, af) + color_len + (
    match alpha_len {
        Some(a) => a,
        None => 0,
    })) as nat
}

/// The property-pool indices the color item references: spatial extents,
/// pixel information, codec configuration (essential), and the optional
/// color description. Indices are 1-based; the high bit marks essential.
pub open spec fn spec_color_prop_ids(has_colr: bool) -> Seq<u8> {
    if has_colr {
        seq![1u8, 2u8, 131u8, 4u8]
    } else {
        seq![1u8, 2u8, 131u8]
    }
}

/// The property-pool indices the alpha item references. The alpha
/// properties sit after the color ones, so their indices shift by one when
/// a color description is present.
pub open spec fn spec_alpha_prop_ids(has_colr: bool) -> Seq<u8> {
    if has_colr {
        seq![1u8, 5u8, 134u8, 7u8]
    } else {
        seq![1u8, 4u8, 133u8, 6u8]
    }
}

/// What the built metadata box looks like: the item catalogue, locations,
/// references and properties that `make_meta` assembles for the given
/// configuration and payload lengths.
pub open spec fn meta_built(
    m: MetaBox,
    cfg: Aviffy,
    color_data_len: usize,
    alpha_data_len: Option<usize>,
    width: u32,
    height: u32,
    depth_bits: u8,
) -> bool {
    let self_ = cfg;
    &&& m.hdlr.handler_type.0@ == seq![112u8, 105u8, 99u8, 116u8]
    &&& m.hdlr.name@ == "avifser"@
    &&& m.pitm.0 == 1
    &&& m.iinf.items@.len() == (if alpha_data_len.is_some() {
        2int
    } else {
        1
    })
    &&& m.iinf.items@[0].id == 1 && m.iinf.items@[0].typ.0@ == seq![97u8, 118u8, 48u8, 49u8]
        && m.iinf.items@[0].name@ == "Color"@
    &&& alpha_data_len.is_some() ==> m.iinf.items@[1].id == 2 && m.iinf.items@[1].typ.0@ == seq![
        97u8,
        118u8,
        48u8,
        49u8,
    ] && m.iinf.items@[1].name@ == "Alpha"@
    &&& m.iloc.items@.len() == (if alpha_data_len.is_some() {
        2int
    } else {
        1
    })
    &&& m.iloc.items@[0].id == 1 && m.iloc.items@[0].extents@.len() == 1
    &&& m.iloc.items@[0].extents@[0].len == color_data_len
    &&& m.iloc.items@[0].extents@[0].offset == IlocOffset::Relative(
        match alpha_data_len {
            Some(al) => al,
            None => 0,
        },
    )
    &&& match alpha_data_len {
        Some(al) => m.iloc.items@[1].id == 2 && m.iloc.items@[1].extents@.len() == 1
            && m.iloc.items@[1].extents@[0].offset == IlocOffset::Relative(0)
            && m.iloc.items@[1].extents@[0].len == al,
        None => true,
    }
    &&& m.iref@.len() == (if alpha_data_len.is_some() {
        if self_.premultiplied_alpha {
            2int
        } else {
            1
        }
    } else {
        0
    })
    &&& alpha_data_len.is_some() ==> m.iref@[0].entry.from_id == 2 && m.iref@[0].entry.to_id == 1
        && m.iref@[0].entry.typ.0@ == seq![97u8, 117u8, 120u8, 108u8]
    &&& alpha_data_len.is_some() && self_.premultiplied_alpha ==> m.iref@[1].entry.from_id == 1
        && m.iref@[1].entry.to_id == 2 && m.iref@[1].entry.typ.0@ == seq![
        112u8,
        114u8,
        101u8,
        109u8,
    ]
    &&& m.iprp.ipco.props@.len() == 3 + (if self_.colr != spec_default_colr() {
        1int
    } else {
        0
    }) + (if alpha_data_len.is_some() {
        3int
    } else {
        0
    })
    &&& m.iprp.ipco.props@[0] == IpcoProp::Ispe(IspeBox { width, height })
    &&& m.iprp.ipco.props@[1] == IpcoProp::Pixi(PixiBox { channels: 3, depth: depth_bits })
    &&& m.iprp.ipco.props@[2] == IpcoProp::Av1C(spec_color_config(depth_bits))
    &&& self_.colr != spec_default_colr() ==> m.iprp.ipco.props@[3] == IpcoProp::Colr(self_.colr)
    &&& alpha_data_len.is_some() ==> {
        let b = if self_.colr != spec_default_colr() {
            4int
        } else {
            3
        };
        m.iprp.ipco.props@[b] == IpcoProp::Pixi(PixiBox { channels: 1, depth: depth_bits })
            && m.iprp.ipco.props@[b + 1] == IpcoProp::Av1C(spec_alpha_config(depth_bits)) && match m
            .iprp.ipco.props@[b + 2] {
            IpcoProp::AuxC(a) => a.urn@ == "urn:mpeg:mpegB:cicp:systems:auxiliary:alpha"@,
            _ => false,
        }
    }
    &&& m.iprp.ipma.entries@.len() == (if alpha_data_len.is_some() {
        2int
    } else {
        1
    })
    &&& m.iprp.ipma.entries@[0].item_id == 1
    &&& m.iprp.ipma.entries@[0].prop_ids@ == spec_color_prop_ids(
        self_.colr != spec_default_colr(),
    )
    &&& alpha_data_len.is_some() ==> m.iprp.ipma.entries@[1].item_id == 2
        && m.iprp.ipma.entries@[1].prop_ids@ == spec_alpha_prop_ids(
        self_.colr != spec_default_colr(),
    )
}

impl Aviffy {
    /// Builds the metadata box for the given payload lengths: item
    /// catalogue, still-relative locations, references, and the shared
    /// property pool with its association lists.
    ///
    /// When alpha is present its extent starts the payload and the color
    /// extent follows it, so the two location records point at
    /// `alpha ++ color`.
    #[verifier::rlimit(100)]
    pub fn make_meta(
        &self,
        color_data_len: usize,
        alpha_data_len: Option<usize>,
        width: u32,
        height: u32,
        depth_bits: u8,
    ) -> (m: MetaBox)
        ensures
            meta_built(m, *self, color_data_len, alpha_data_len, width, height, depth_bits),
            m.spec_len() == spec_meta_len(
                alpha_data_len.is_some(),
                self.premultiplied_alpha,
                self.colr != spec_default_colr(),
            ),
    {
        proof {
            lemma_name_lens();
        }
        let has_colr = self.colr != ColrBox::default();
        let mut image_items: Vec<InfeBox> = Vec::new();
        let mut iloc_items: Vec<IlocItem> = Vec::new();
        let mut ipma_entries: Vec<IpmaEntry> = Vec::new();
        let mut irefs: Vec<IrefBox> = Vec::new();
        let mut ipco = IpcoBox::new();

        image_items.push(
            InfeBox { id: 1, typ: FourCC([97u8, 118u8, 48u8, 49u8]), name: "Color" },
        );
        let ispe_prop = ipco.push(IpcoProp::Ispe(IspeBox { width, height }));
        let pixi_3 = ipco.push(IpcoProp::Pixi(PixiBox { channels: 3, depth: depth_bits }));
        let av1c_color_prop = ipco.push(IpcoProp::Av1C(make_color_config(depth_bits)));
        let mut prop_ids: Vec<u8> = Vec::new();
        prop_ids.push(ispe_prop);
        prop_ids.push(pixi_3);
        proof {
            assert((3u8 | 128u8) == 131u8) by (bit_vector);
        }
        prop_ids.push(av1c_color_prop | 128);
        if has_colr {
            let colr_color_prop = ipco.push(IpcoProp::Colr(self.colr));
            prop_ids.push(colr_color_prop);
        }
        proof {
            if has_colr {
                assert(prop_ids@ =~= spec_color_prop_ids(true));
            } else {
                assert(prop_ids@ =~= spec_color_prop_ids(false));
            }
        }
        ipma_entries.push(IpmaEntry { item_id: 1, prop_ids });

        match alpha_data_len {
            Some(alpha_len) => {
                image_items.push(
                    InfeBox { id: 2, typ: FourCC([97u8, 118u8, 48u8, 49u8]), name: "Alpha" },
                );
                let pixi_1 = ipco.push(IpcoProp::Pixi(PixiBox { channels: 1, depth: depth_bits }));
                let av1c_alpha_prop = ipco.push(IpcoProp::Av1C(make_alpha_config(depth_bits)));
                let auxc_prop = ipco.push(
                    IpcoProp::AuxC(
                        AuxCBox { urn: "urn:mpeg:mpegB:cicp:systems:auxiliary:alpha" },
                    ),
                );
                irefs.push(
                    IrefBox {
                        entry: IrefEntryBox {
                            from_id: 2,
                            to_id: 1,
                            typ: FourCC([97u8, 117u8, 120u8, 108u8]),
                        },
                    },
                );
                if self.premultiplied_alpha {
                    irefs.push(
                        IrefBox {
                            entry: IrefEntryBox {
                                from_id: 1,
                                to_id: 2,
                                typ: FourCC([112u8, 114u8, 101u8, 109u8]),
                            },
                        },
                    );
                }
                let mut alpha_prop_ids: Vec<u8> = Vec::new();
                alpha_prop_ids.push(ispe_prop);
                alpha_prop_ids.push(pixi_1);
                proof {
                    assert((5u8 | 128u8) == 133u8) by (bit_vector);
                    assert((6u8 | 128u8) == 134u8) by (bit_vector);
                }
                alpha_prop_ids.push(av1c_alpha_prop | 128);
                alpha_prop_ids.push(auxc_prop);
                proof {
                    if has_colr {
                        assert(alpha_prop_ids@ =~= spec_alpha_prop_ids(true));
                    } else {
                        assert(alpha_prop_ids@ =~= spec_alpha_prop_ids(false));
                    }
                }
                ipma_entries.push(IpmaEntry { item_id: 2, prop_ids: alpha_prop_ids });

                // Interleaved alpha and color, with alpha first, so that a
                // reader can show a partial image as early as possible.
                let mut color_extents: Vec<IlocExtent> = Vec::new();
                color_extents.push(
                    IlocExtent { offset: IlocOffset::Relative(alpha_len), len: color_data_len },
                );
                iloc_items.push(IlocItem { id: 1, extents: color_extents });
                let mut alpha_extents: Vec<IlocExtent> = Vec::new();
                alpha_extents.push(
                    IlocExtent { offset: IlocOffset::Relative(0), len: alpha_len },
                );
                iloc_items.push(IlocItem { id: 2, extents: alpha_extents });
            },
            None => {
                let mut color_extents: Vec<IlocExtent> = Vec::new();
                color_extents.push(
                    IlocExtent { offset: IlocOffset::Relative(0), len: color_data_len },
                );
                iloc_items.push(IlocItem { id: 1, extents: color_extents });
            },
        }

        let m = MetaBox {
            hdlr: HdlrBox { handler_type: FourCC([112u8, 105u8, 99u8, 116u8]), name: "avifser" },
            iinf: IinfBox { items: image_items },
            pitm: PitmBox(1),
            iloc: IlocBox { items: iloc_items },
            iprp: IprpBox { ipco, ipma: IpmaBox { entries: ipma_entries } },
            iref: irefs,
        };
        proof {
            boxes::lemma_boxes_len_unroll(m.iinf.items@);
            boxes::lemma_boxes_len_unroll(m.iloc.items@);
            boxes::lemma_boxes_len_unroll(m.iloc.items@[0].extents@);
            if m.iloc.items@.len() == 2 {
                boxes::lemma_boxes_len_unroll(m.iloc.items@[1].extents@);
            }
            boxes::lemma_boxes_len_unroll(m.iref@);
            boxes::lemma_boxes_len_unroll(m.iprp.ipco.props@);
            boxes::lemma_boxes_len_unroll(m.iprp.ipma.entries@);
            lemma_meta_built_len(m);
        }
        m
    }
}

/// What a built sample description entry looks like: an `av01` entry with
/// the given configuration, optional color description, and, for the alpha
/// track, the auxiliary type marker.
pub open spec fn sample_entry_built(
    e: SampleEntryBox,
    config: Av1CBox,
    colr: Option<ColrBox>,
    width: u16,
    height: u16,
    aux: bool,
) -> bool {
    &&& e.typ.0@ == seq![97u8, 118u8, 48u8, 49u8]
    &&& e.width == width
    &&& e.height == height
    &&& e.config == config
    &&& e.colr == colr
    &&& match e.auxi {
        Some(a) => aux && a.aux_track_type@ == "urn:mpeg:mpegB:cicp:systems:auxiliary:alpha"@,
        None => !aux,
    }
}

/// What a built track looks like: its headers, and sample tables compressed
/// from the given frame list exactly as the builder functions state.
pub open spec fn track_built(
    t: TrakBox,
    track_id: u32,
    width: u32,
    height: u32,
    timescale: u32,
    media_duration: u64,
    handler_tag: Seq<u8>,
    frames: Seq<FrameInfo>,
) -> bool {
    &&& t.tkhd == (TkhdBox {
        creation_time: 0,
        modification_time: 0,
        track_id,
        duration: u64::MAX,
        width: width << 16,
        height: height << 16,
    })
    &&& t.meta.is_none()
    &&& t.mdia.mdhd == (MdhdBox {
        creation_time: 0,
        modification_time: 0,
        timescale,
        duration: media_duration,
    })
    &&& t.mdia.hdlr.handler_type.0@ == handler_tag
    &&& t.mdia.hdlr.name@ == "avifser"@
    &&& t.mdia.minf.stbl.stts.sample_delta@ == spec_duration_runs(durations_of(frames))
    &&& t.mdia.minf.stbl.stsc.samples_per_chunk == frames.len() as u32
    &&& t.mdia.minf.stbl.stsz.sample_count == frames.len() as u32
    &&& t.mdia.minf.stbl.stsz.entry_size@ == sizes_of(frames)
    &&& t.mdia.minf.stbl.stco.chunk_offset == 1
    &&& match t.mdia.minf.stbl.stss {
        Some(b) => spec_sync_indices(frames).len() != frames.len() && b.entry_count
            == spec_sync_indices(frames).len() && b.sample_number@ == spec_sync_indices(frames),
        None => spec_sync_indices(frames).len() == frames.len(),
    }
}

/// Builds one track of an animated sequence: headers plus the sample tables
/// compressed from the caller's frame list.
pub fn make_track(
    track_id: u32,
    width: u32,
    height: u32,
    timescale: u32,
    media_duration: u64,
    handler_type: FourCC,
    tref: Option<TrefBox>,
    entry: SampleEntryBox,
    frames: &[FrameInfo],
) -> (t: TrakBox)
    requires
        frames@.len() <= u32::MAX,
    ensures
        track_built(
            t,
            track_id,
            width,
            height,
            timescale,
            media_duration,
            handler_type.0@,
            frames@,
        ),
        t.tref == tref,
        t.mdia.minf.stbl.stsd.entry == entry,
        t.spec_len() == spec_trak_len(entry.spec_len(), frames@, tref.is_some()),
        t.wf(),
{
    proof {
        lemma_name_lens();
    }
    let stts_entries = crate::tables::build_duration_runs(frames);
    let stss = crate::tables::build_sync_table(frames);
    let sizes = crate::tables::build_sizes(frames);
    let n = frames.len() as u32;
    let t = TrakBox {
        tkhd: TkhdBox {
            creation_time: 0,
            modification_time: 0,
            track_id,
            duration: u64::MAX,
            width: width << 16,
            height: height << 16,
        },
        tref,
        meta: None,
        mdia: MdiaBox {
            mdhd: MdhdBox {
                creation_time: 0,
                modification_time: 0,
                timescale,
                duration: media_duration,
            },
            hdlr: HdlrBox { handler_type, name: "avifser" },
            minf: MinfBox {
                vmhd: VmhdBox {  },
                dinf: DinfBox { dref: DrefBox { url: UrlBox {  } } },
                stbl: StblBox {
                    stsd: StsdBox { entry },
                    stts: SttsBox { sample_delta: stts_entries },
                    stsc: StscBox { samples_per_chunk: n },
                    stsz: StszBox { sample_count: n, entry_size: sizes },
                    stco: StcoBox { chunk_offset: 1 },
                    stss,
                },
            },
        },
    };
    proof {
        crate::moov::lemma_stts_list_len(t.mdia.minf.stbl.stts.sample_delta@);
        crate::moov::lemma_u32_list_len(t.mdia.minf.stbl.stsz.entry_size@);
        match &t.mdia.minf.stbl.stss {
            Some(b) => crate::moov::lemma_u32_list_len(b.sample_number@),
            None => {},
        }
    }
    t
}

/// What the built movie box looks like: header plus one track per stream,
/// color first, the alpha track referencing the color track.
pub open spec fn moov_built(
    m: MoovBox,
    cfg: Aviffy,
    width: u32,
    height: u32,
    depth_bits: u8,
    timescale: u32,
    cf: Seq<FrameInfo>,
    af: Option<Seq<FrameInfo>>,
) -> bool {
    &&& m.mvhd == (MvhdBox {
        creation_time: 0,
        modification_time: 0,
        timescale,
        duration: u64::MAX,
        next_track_id: if af.is_some() {
            2u32
        } else {
            1u32
        },
    })
    &&& m.tracks@.len() == (if af.is_some() {
        2int
    } else {
        1
    })
    &&& track_built(
        m.tracks@[0],
        1,
        width,
        height,
        timescale,
        spec_total_duration(cf) as u64,
        seq![112u8, 105u8, 99u8, 116u8],
        cf,
    )
    &&& sample_entry_built(
        m.tracks@[0].mdia.minf.stbl.stsd.entry,
        spec_color_config(depth_bits),
        Some(cfg.colr),
        width as u16,
        height as u16,
        false,
    )
    &&& m.tracks@[0].tref.is_none()
    &&& match af {
        Some(a) => {
            &&& track_built(
                m.tracks@[1],
                2,
                width,
                height,
                timescale,
                spec_total_duration(cf) as u64,
                seq![97u8, 117u8, 120u8, 118u8],
                a,
            )
            &&& sample_entry_built(
                m.tracks@[1].mdia.minf.stbl.stsd.entry,
                spec_alpha_config(depth_bits),
                None,
                width as u16,
                height as u16,
                true,
            )
            &&& match m.tracks@[1].tref {
                Some(tr) => tr.ref_type.typ.0@ == seq![97u8, 117u8, 120u8, 108u8]
                    && tr.ref_type.to_id == 1,
                None => false,
            }
        },
        None => true,
    }
}

impl Aviffy {
    /// Builds the movie box for an animated sequence: one track for color
    /// and, when alpha frames are supplied, a second auxiliary track.
    pub fn make_moov(
        &self,
        width: u32,
        height: u32,
        depth_bits: u8,
        timescale: u32,
        color_frames: &[FrameInfo],
        alpha_frames: Option<&[FrameInfo]>,
    ) -> (m: MoovBox)
        requires
            color_frames@.len() <= u32::MAX,
            spec_total_duration(color_frames@) <= u64::MAX,
            match alpha_frames {
                Some(a) => a@.len() <= u32::MAX,
                None => true,
            },
        ensures
            moov_built(
                m,
                *self,
                width,
                height,
                depth_bits,
                timescale,
                color_frames@,
                match alpha_frames {
                    Some(a) => Some(a@),
                    None => None,
                },
            ),
            m.spec_len() == spec_moov_len(
                color_frames@,
                match alpha_frames {
                    Some(a) => Some(a@),
                    None => None,
                },
            ),
            m.wf(),
    {
        proof {
            lemma_name_lens();
        }
        let media_duration = crate::tables::total_duration(color_frames);
        let color_entry = SampleEntryBox {
            typ: FourCC([97u8, 118u8, 48u8, 49u8]),
            width: width as u16,
            height: height as u16,
            config: make_color_config(depth_bits),
            colr: Some(self.colr),
            ccst: CcstBox {  },
            auxi: None,
        };
        let trak_color = make_track(
            1,
            width,
            height,
            timescale,
            media_duration,
            FourCC([112u8, 105u8, 99u8, 116u8]),
            None,
            color_entry,
            color_frames,
        );
        let mut tracks: Vec<TrakBox> = Vec::new();
        tracks.push(trak_color);
        match alpha_frames {
            Some(af) => {
                let alpha_entry = SampleEntryBox {
                    typ: FourCC([97u8, 118u8, 48u8, 49u8]),
                    width: width as u16,
                    height: height as u16,
                    config: make_alpha_config(depth_bits),
                    colr: None,
                    ccst: CcstBox {  },
                    auxi: Some(
                        AuxiBox { aux_track_type: "urn:mpeg:mpegB:cicp:systems:auxiliary:alpha" },
                    ),
                };
                let trak_alpha = make_track(
                    2,
                    width,
                    height,
                    timescale,
                    media_duration,
                    FourCC([97u8, 117u8, 120u8, 118u8]),
                    Some(
                        TrefBox {
                            ref_type: ReftypeBox {
                                typ: FourCC([97u8, 117u8, 120u8, 108u8]),
                                to_id: 1,
                            },
                        },
                    ),
                    alpha_entry,
                    af,
                );
                tracks.push(trak_alpha);
            },
            None => {},
        }
        let m = MoovBox {
            mvhd: MvhdBox {
                creation_time: 0,
                modification_time: 0,
                timescale,
                duration: u64::MAX,
                next_track_id: match alpha_frames {
                    Some(_) => 2,
                    None => 1,
                },
            },
            tracks,
        };
        proof {
            boxes::lemma_boxes_len_unroll(m.tracks@);
        }
        m
    }
}

/// Computes the metadata box's serialized length piecewise, so that the
/// closed-form size algebra can be checked against the built structure.
proof fn lemma_meta_built_len(m: MetaBox)
    ensures
        m.spec_len() == boxes::FULL_BOX_SIZE + m.hdlr.spec_len() + m.pitm.spec_len()
            + m.iloc.spec_len() + m.iinf.spec_len() + boxes::boxes_len(m.iref@)
            + m.iprp.spec_len(),
        m.iloc.spec_len() == 16 + boxes::boxes_len(m.iloc.items@),
        m.iinf.spec_len() == 14 + boxes::boxes_len(m.iinf.items@),
        m.iprp.spec_len() == 8 + m.iprp.ipco.spec_len() + m.iprp.ipma.spec_len(),
        m.iprp.ipco.spec_len() == 8 + boxes::boxes_len(m.iprp.ipco.props@),
        m.iprp.ipma.spec_len() == 16 + boxes::boxes_len(m.iprp.ipma.entries@),
{
}

/// The fixed item and handler names have these byte lengths.
pub proof fn lemma_name_lens()
    ensures
        "avifser".spec_bytes().len() == 7,
        "Color".spec_bytes().len() == 5,
        "Alpha".spec_bytes().len() == 5,
        "urn:mpeg:mpegB:cicp:systems:auxiliary:alpha".spec_bytes().len() == 43,
{
    broadcast use vstd::string::is_ascii_spec_bytes;

    reveal_strlit("avifser");
    reveal_strlit("Color");
    reveal_strlit("Alpha");
    reveal_strlit("urn:mpeg:mpegB:cicp:systems:auxiliary:alpha");
    assert(vstd::utf8::is_ascii_chars("avifser"@));
    assert(vstd::utf8::is_ascii_chars("Color"@));
    assert(vstd::utf8::is_ascii_chars("Alpha"@));
    assert(vstd::utf8::is_ascii_chars("urn:mpeg:mpegB:cicp:systems:auxiliary:alpha"@));
    assert(vstd::string::is_ascii("avifser"));
    assert(vstd::string::is_ascii("Color"));
    assert(vstd::string::is_ascii("Alpha"));
    assert(vstd::string::is_ascii("urn:mpeg:mpegB:cicp:systems:auxiliary:alpha"));
}

impl Aviffy {
    /// Assembles the whole box tree for one serialization call. Offsets in
    /// the result are still payload-relative; `AvifFile::write` resolves
    /// them once every length is final.
    #[verifier::rlimit(100)]
    pub fn make_boxes(
        &self,
        color_av1_data: &[u8],
        alpha_av1_data: Option<&[u8]>,
        width: u32,
        height: u32,
        depth_bits: u8,
        timescale: u32,
        color_frames: Option<&[FrameInfo]>,
        alpha_frames: Option<&[FrameInfo]>,
    ) -> (r: AvifFile)
        requires
            match color_frames {
                Some(f) => f@.len() <= u32::MAX && spec_total_duration(f@) <= u64::MAX,
                None => true,
            },
            match alpha_frames {
                Some(f) => f@.len() <= u32::MAX,
                None => true,
            },
        ensures
            r.ftyp.minor_version == 0,
            r.ftyp.major_brand.0@ == (if color_frames.is_some() {
                seq![97u8, 118u8, 105u8, 115u8]
            } else {
                seq![97u8, 118u8, 105u8, 102u8]
            }),
            r.ftyp.compatible_brands@.len() == (if color_frames.is_some() {
                4int
            } else {
                3
            }),
            r.ftyp.compatible_brands@[0].0@ == seq![97u8, 118u8, 105u8, 102u8],
            color_frames.is_some() ==> r.ftyp.compatible_brands@[1].0@ == seq![
                97u8,
                118u8,
                105u8,
                115u8,
            ] && r.ftyp.compatible_brands@[2].0@ == seq![109u8, 105u8, 102u8, 49u8]
                && r.ftyp.compatible_brands@[3].0@ == seq![109u8, 105u8, 97u8, 102u8],
            color_frames.is_none() ==> r.ftyp.compatible_brands@[1].0@ == seq![
                109u8,
                105u8,
                102u8,
                49u8,
            ] && r.ftyp.compatible_brands@[2].0@ == seq![109u8, 105u8, 97u8, 102u8],
            meta_built(
                r.meta,
                *self,
                color_av1_data@.len() as usize,
                match alpha_av1_data {
                    Some(a) => Some(a@.len() as usize),
                    None => None,
                },
                width,
                height,
                depth_bits,
            ),
            r.moov.is_some() == color_frames.is_some(),
            match (r.moov, color_frames) {
                (Some(m), Some(cf)) => moov_built(
                    m,
                    *self,
                    width,
                    height,
                    depth_bits,
                    timescale,
                    cf@,
                    match alpha_frames {
                        Some(a) => Some(a@),
                        None => None,
                    },
                ),
                _ => true,
            },
            r.mdat.data_chunks@.len() == (if alpha_av1_data.is_some() {
                2int
            } else {
                1
            }),
            match alpha_av1_data {
                Some(a) => r.mdat.data_chunks@[0].0@ == a@ && r.mdat.data_chunks@[1].0@
                    == color_av1_data@,
                None => r.mdat.data_chunks@[0].0@ == color_av1_data@,
            },
            r.ftyp.spec_len() == spec_ftyp_len(color_frames.is_some()),
            r.meta.spec_len() == spec_meta_len(
                alpha_av1_data.is_some(),
                self.premultiplied_alpha,
                self.colr != spec_default_colr(),
            ),
            r.mdat.spec_len() == 8 + color_av1_data@.len() + (match alpha_av1_data {
                Some(a) => a@.len(),
                None => 0,
            }),
            r.spec_mdat_start() == spec_mdat_base(
                self.premultiplied_alpha,
                self.colr != spec_default_colr(),
                alpha_av1_data.is_some(),
                match color_frames {
                    Some(f) => Some(f@),
                    None => None,
                },
                match alpha_frames {
                    Some(f) => Some(f@),
                    None => None,
                },
            ),
            r.spec_len() == spec_file_len(
                self.premultiplied_alpha,
                self.colr != spec_default_colr(),
                color_av1_data@.len(),
                match alpha_av1_data {
                    Some(a) => Some(a@.len()),
                    None => None,
                },
                match color_frames {
                    Some(f) => Some(f@),
                    None => None,
                },
                match alpha_frames {
                    Some(f) => Some(f@),
                    None => None,
                },
            ),
            opt_wf(r.moov),
    {
        let meta = self.make_meta(
            color_av1_data.len(),
            match alpha_av1_data {
                Some(a) => Some(a.len()),
                None => None,
            },
            width,
            height,
            depth_bits,
        );
        let moov: Option<MoovBox> = match color_frames {
            Some(cf) => Some(
                self.make_moov(width, height, depth_bits, timescale, cf, alpha_frames),
            ),
            None => None,
        };
        let mut compatible_brands: Vec<FourCC> = Vec::new();
        compatible_brands.push(FourCC([97u8, 118u8, 105u8, 102u8]));  // "avif"
        if moov.is_some() {
            compatible_brands.push(FourCC([97u8, 118u8, 105u8, 115u8]));  // "avis"
        }
        compatible_brands.push(FourCC([109u8, 105u8, 102u8, 49u8]));  // "mif1"
        compatible_brands.push(FourCC([109u8, 105u8, 97u8, 102u8]));  // "miaf"
        let major_brand = if moov.is_some() {
            FourCC([97u8, 118u8, 105u8, 115u8])
        } else {
            FourCC([97u8, 118u8, 105u8, 102u8])
        };
        let mut data_chunks: Vec<DataChunk> = Vec::new();
        match alpha_av1_data {
            Some(alpha_data) => {
                // Alpha first, then color, so a reader consuming the file
                // byte by byte can render a complete image early.
                data_chunks.push(DataChunk(slice_to_vec(alpha_data)));
                data_chunks.push(DataChunk(slice_to_vec(color_av1_data)));
            },
            None => {
                data_chunks.push(DataChunk(slice_to_vec(color_av1_data)));
            },
        }
        let r = AvifFile {
            ftyp: FtypBox { major_brand, minor_version: 0, compatible_brands },
            meta,
            moov,
            mdat: MdatBox { data_chunks },
        };
        proof {
            boxes::lemma_boxes_len_unroll(r.mdat.data_chunks@);
            boxes::lemma_fourcc_list_len(r.ftyp.compatible_brands@);
        }
        r
    }
}

/// The view of an optional byte slice.
pub open spec fn opt_bytes_view(a: Option<&[u8]>) -> Option<Seq<u8>> {
    match a {
        Some(s) => Some(s@),
        None => None,
    }
}

/// The length of an optional byte slice.
pub open spec fn opt_len_view(a: Option<&[u8]>) -> Option<nat> {
    match a {
        Some(s) => Some(s@.len()),
        None => None,
    }
}

/// The view of an optional frame list.
pub open spec fn opt_frames_view(f: Option<&[FrameInfo]>) -> Option<Seq<FrameInfo>> {
    match f {
        Some(s) => Some(s@),
        None => None,
    }
}

/// The payload box's content: the alpha bytes, when present, followed by
/// the color bytes.
pub open spec fn payload_bytes(color: Seq<u8>, alpha: Option<Seq<u8>>) -> Seq<u8> {
    match alpha {
        Some(a) => a + color,
        None => color,
    }
}

/// Inputs sized so that the file can be emitted: the total length and every
/// resolved offset must fit its 32-bit field, and the table builders' own
/// counters must fit.
pub open spec fn inputs_fit(
    cfg: Aviffy,
    color_len: nat,
    alpha_len: Option<nat>,
    cf: Option<Seq<FrameInfo>>,
    af: Option<Seq<FrameInfo>>,
) -> bool {
    &&& spec_file_len(
        cfg.premultiplied_alpha,
        cfg.colr != spec_default_colr(),
        color_len,
        alpha_len,
        cf,
        af,
    ) <= u32::MAX
    &&& match cf {
        Some(c) => spec_mdat_base(
            cfg.premultiplied_alpha,
            cfg.colr != spec_default_colr(),
            alpha_len.is_some(),
            cf,
            af,
        ) + u32_list_sum(sizes_of(c)) + (match af {
            Some(a2) => u32_list_sum(sizes_of(a2)),
            None => 0,
        }) <= u32::MAX,
        None => true,
    }
    &&& match cf {
        Some(f) => f.len() <= u32::MAX && spec_total_duration(f) <= u64::MAX,
        None => true,
    }
    &&& match af {
        Some(f) => f.len() <= u32::MAX,
        None => true,
    }
}

impl Aviffy {
    /// Serializes a complete AVIF file from the given payloads and appends
    /// its bytes to `into_output`: type box, metadata box, movie box when
    /// animated, then the payload box holding the coded bytes.
    #[verifier::rlimit(100)]
    pub fn write(
        &self,
        into_output: &mut Vec<u8>,
        color_av1_data: &[u8],
        alpha_av1_data: Option<&[u8]>,
        width: u32,
        height: u32,
        depth_bits: u8,
        timescale: u32,
        color_frames: Option<&[FrameInfo]>,
        alpha_frames: Option<&[FrameInfo]>,
    )
        requires
            inputs_fit(
                *self,
                color_av1_data@.len(),
                opt_len_view(alpha_av1_data),
                opt_frames_view(color_frames),
                opt_frames_view(alpha_frames),
            ),
        ensures
            final(into_output)@.len() == old(into_output)@.len() + spec_file_len(
                self.premultiplied_alpha,
                self.colr != spec_default_colr(),
                color_av1_data@.len(),
                opt_len_view(alpha_av1_data),
                opt_frames_view(color_frames),
                opt_frames_view(alpha_frames),
            ),
            final(into_output)@.subrange(0, old(into_output)@.len() as int) == old(into_output)@,
            final(into_output)@.subrange(
                final(into_output)@.len() - payload_bytes(
                    color_av1_data@,
                    opt_bytes_view(alpha_av1_data),
                ).len(),
                final(into_output)@.len() as int,
            ) == payload_bytes(color_av1_data@, opt_bytes_view(alpha_av1_data)),
            final(into_output)@.subrange(
                old(into_output)@.len() as int + 4,
                old(into_output)@.len() as int + 8,
            ) == seq![102u8, 116u8, 121u8, 112u8],
            final(into_output)@.subrange(
                old(into_output)@.len() as int + 8,
                old(into_output)@.len() as int + 12,
            ) == (if color_frames.is_some() {
                seq![97u8, 118u8, 105u8, 115u8]
            } else {
                seq![97u8, 118u8, 105u8, 102u8]
            }),
    {
        let mut file = self.make_boxes(
            color_av1_data,
            alpha_av1_data,
            width,
            height,
            depth_bits,
            timescale,
            color_frames,
            alpha_frames,
        );
        proof {
            let base = file.spec_mdat_start();
            assert forall|i: int, j: int|
                0 <= i < file.meta.iloc.items@.len() && 0 <= j
                    < file.meta.iloc.items@[i].extents@.len() implies boxes::extent_fits(
                file.meta.iloc.items@[i].extents@[j],
                base,
            ) by {
                assert(j == 0);
            }
            assert(boxes::iloc_offsets_fit(file.meta.iloc, base));
            match (&file.moov, color_frames) {
                (Some(m), Some(cf)) => {
                    let s = m.tracks@;
                    assert(tracks_suffix_total(s, s.len() as int) == 0);
                    if s.len() == 2 {
                        assert(tracks_suffix_total(s, 1) == track_sample_total(s[1])
                            + tracks_suffix_total(s, 2));
                    }
                    assert(tracks_suffix_total(s, 0) == track_sample_total(s[0])
                        + tracks_suffix_total(s, 1));
                    assert(base + tracks_suffix_total(s, 0) <= u32::MAX);
                },
                _ => {},
            }
            assert(boxes::moov_offsets_fit(file.moov, base));
        }
        file.write(into_output);
        proof {
            file.lemma_bytes_len();
            file.ftyp.lemma_bytes_len();
            file.meta.lemma_bytes_len();
            boxes::lemma_opt_bytes_len(file.moov);
            file.mdat.lemma_bytes_len();
            let ch = file.mdat.data_chunks@;
            if ch.len() == 1 {
                assert(ch =~= Seq::<DataChunk>::empty().push(ch[0]));
                boxes::lemma_boxes_push(Seq::<DataChunk>::empty(), ch[0]);
                assert(boxes::boxes_bytes(ch) =~= ch[0].0@);
            } else {
                assert(ch =~= Seq::<DataChunk>::empty().push(ch[0]).push(ch[1]));
                boxes::lemma_boxes_push(Seq::<DataChunk>::empty(), ch[0]);
                boxes::lemma_boxes_push(Seq::<DataChunk>::empty().push(ch[0]), ch[1]);
                assert(boxes::boxes_bytes(ch) =~= ch[0].0@ + ch[1].0@);
            }
            assert(into_output@.subrange(
                into_output@.len() - payload_bytes(
                    color_av1_data@,
                    opt_bytes_view(alpha_av1_data),
                ).len(),
                into_output@.len() as int,
            ) =~= payload_bytes(color_av1_data@, opt_bytes_view(alpha_av1_data)));
            assert(into_output@.subrange(0, old(into_output)@.len() as int) =~= old(
                into_output,
            )@);
            assert(into_output@.subrange(
                old(into_output)@.len() as int + 4,
                old(into_output)@.len() as int + 8,
            ) =~= seq![102u8, 116u8, 121u8, 112u8]);
            assert(into_output@.subrange(
                old(into_output)@.len() as int + 8,
                old(into_output)@.len() as int + 12,
            ) =~= file.ftyp.major_brand.0@);
        }
    }

    /// Serializes the file into a fresh byte vector.
    #[must_use]
    pub fn to_vec(
        &self,
        color_av1_data: &[u8],
        alpha_av1_data: Option<&[u8]>,
        width: u32,
        height: u32,
        depth_bits: u8,
        timescale: u32,
        color_frames: Option<&[FrameInfo]>,
        alpha_frames: Option<&[FrameInfo]>,
    ) -> (out: Vec<u8>)
        requires
            inputs_fit(
                *self,
                color_av1_data@.len(),
                opt_len_view(alpha_av1_data),
                opt_frames_view(color_frames),
                opt_frames_view(alpha_frames),
            ),
        ensures
            out@.len() == spec_file_len(
                self.premultiplied_alpha,
                self.colr != spec_default_colr(),
                color_av1_data@.len(),
                opt_len_view(alpha_av1_data),
                opt_frames_view(color_frames),
                opt_frames_view(alpha_frames),
            ),
            out@.subrange(
                out@.len() - payload_bytes(color_av1_data@, opt_bytes_view(alpha_av1_data)).len(),
                out@.len() as int,
            ) == payload_bytes(color_av1_data@, opt_bytes_view(alpha_av1_data)),
            out@.subrange(4, 8) == seq![102u8, 116u8, 121u8, 112u8],
            out@.subrange(8, 12) == (if color_frames.is_some() {
                seq![97u8, 118u8, 105u8, 115u8]
            } else {
                seq![97u8, 118u8, 105u8, 102u8]
            }),
    {
        let mut out: Vec<u8> = Vec::new();
        self.write(
            &mut out,
            color_av1_data,
            alpha_av1_data,
            width,
            height,
            depth_bits,
            timescale,
            color_frames,
            alpha_frames,
        );
        out
    }
}

/// The default serialization configuration.
pub open spec fn spec_default_config() -> Aviffy {
    Aviffy { premultiplied_alpha: false, colr: spec_default_colr() }
}

/// Makes an AVIF file given encoded AV1 data, with the default
/// configuration, appending the bytes to `into_output`.
pub fn serialize(
    into_output: &mut Vec<u8>,
    color_av1_data: &[u8],
    alpha_av1_data: Option<&[u8]>,
    width: u32,
    height: u32,
    depth_bits: u8,
    timescale: u32,
    color_frames: Option<&[FrameInfo]>,
    alpha_frames: Option<&[FrameInfo]>,
)
    requires
        inputs_fit(
            spec_default_config(),
            color_av1_data@.len(),
            opt_len_view(alpha_av1_data),
            opt_frames_view(color_frames),
            opt_frames_view(alpha_frames),
        ),
    ensures
        final(into_output)@.len() == old(into_output)@.len() + spec_file_len(
            false,
            false,
            color_av1_data@.len(),
            opt_len_view(alpha_av1_data),
            opt_frames_view(color_frames),
            opt_frames_view(alpha_frames),
        ),
        final(into_output)@.subrange(0, old(into_output)@.len() as int) == old(into_output)@,
        final(into_output)@.subrange(
            final(into_output)@.len() - payload_bytes(
                color_av1_data@,
                opt_bytes_view(alpha_av1_data),
            ).len(),
            final(into_output)@.len() as int,
        ) == payload_bytes(color_av1_data@, opt_bytes_view(alpha_av1_data)),
{
    Aviffy::new().write(
        into_output,
        color_av1_data,
        alpha_av1_data,
        width,
        height,
        depth_bits,
        timescale,
        color_frames,
        alpha_frames,
    );
}

/// Like `serialize`, but collects the bytes into a fresh vector.
#[must_use]
pub fn serialize_to_vec(
    color_av1_data: &[u8],
    alpha_av1_data: Option<&[u8]>,
    width: u32,
    height: u32,
    depth_bits: u8,
    timescale: u32,
    color_frames: Option<&[FrameInfo]>,
    alpha_frames: Option<&[FrameInfo]>,
) -> (out: Vec<u8>)
    requires
        inputs_fit(
            spec_default_config(),
            color_av1_data@.len(),
            opt_len_view(alpha_av1_data),
            opt_frames_view(color_frames),
            opt_frames_view(alpha_frames),
        ),
    ensures
        out@.len() == spec_file_len(
            false,
            false,
            color_av1_data@.len(),
            opt_len_view(alpha_av1_data),
            opt_frames_view(color_frames),
            opt_frames_view(alpha_frames),
        ),
        out@.subrange(
            out@.len() - payload_bytes(color_av1_data@, opt_bytes_view(alpha_av1_data)).len(),
            out@.len() as int,
        ) == payload_bytes(color_av1_data@, opt_bytes_view(alpha_av1_data)),
        out@.subrange(4, 8) == seq![102u8, 116u8, 121u8, 112u8],
        out@.subrange(8, 12) == (if color_frames.is_some() {
            seq![97u8, 118u8, 105u8, 115u8]
        } else {
            seq![97u8, 118u8, 105u8, 102u8]
        }),
{
    Aviffy::new().to_vec(
        color_av1_data,
        alpha_av1_data,
        width,
        height,
        depth_bits,
        timescale,
        color_frames,
        alpha_frames,
    )
}

/// Interleave correctness: for color+alpha input the payload box's content
/// is exactly the alpha bytes followed by the color bytes, and the color
/// item's extent offset equals the alpha length.
pub proof fn lemma_interleave(
    file: AvifFile,
    cfg: Aviffy,
    color: Seq<u8>,
    alpha: Seq<u8>,
    width: u32,
    height: u32,
    depth_bits: u8,
)
    requires
        meta_built(
            file.meta,
            cfg,
            color.len() as usize,
            Some(alpha.len() as usize),
            width,
            height,
            depth_bits,
        ),
        file.mdat.data_chunks@.len() == 2,
        file.mdat.data_chunks@[0].0@ == alpha,
        file.mdat.data_chunks@[1].0@ == color,
    ensures
        boxes::boxes_bytes(file.mdat.data_chunks@) == alpha + color,
        file.meta.iloc.items@[0].extents@[0].offset == IlocOffset::Relative(
            alpha.len() as usize,
        ),
{
    let ch = file.mdat.data_chunks@;
    assert(ch =~= Seq::<DataChunk>::empty().push(ch[0]).push(ch[1]));
    boxes::lemma_boxes_push(Seq::<DataChunk>::empty(), ch[0]);
    boxes::lemma_boxes_push(Seq::<DataChunk>::empty().push(ch[0]), ch[1]);
    assert(boxes::boxes_bytes(ch) =~= alpha + color);
}

/// Absolute-offset correctness, still image: once the location table is
/// resolved against the payload base, the color-only extent's absolute
/// offset is exactly that base — the type box length plus the metadata box
/// length plus the payload box header size.
pub proof fn lemma_absolute_offset_still(
    resolved: MetaBox,
    built: MetaBox,
    cfg: Aviffy,
    color_len: usize,
    width: u32,
    height: u32,
    depth_bits: u8,
    base: nat,
)
    requires
        meta_built(built, cfg, color_len, None, width, height, depth_bits),
        boxes::meta_resolved_from(resolved, built, base),
        base <= u32::MAX,
    ensures
        resolved.iloc.items@[0].extents@[0].offset == IlocOffset::Absolute(base as u32),
        resolved.iloc.items@[0].extents@[0].len == color_len,
{
}

/// Absolute-offset correctness with alpha: the alpha extent resolves to the
/// payload base and the color extent to the base plus the alpha length —
/// the two extents tile the payload, alpha first.
pub proof fn lemma_absolute_offset_alpha(
    resolved: MetaBox,
    built: MetaBox,
    cfg: Aviffy,
    color_len: usize,
    alpha_len: usize,
    width: u32,
    height: u32,
    depth_bits: u8,
    base: nat,
)
    requires
        meta_built(built, cfg, color_len, Some(alpha_len), width, height, depth_bits),
        boxes::meta_resolved_from(resolved, built, base),
        base + alpha_len <= u32::MAX,
    ensures
        resolved.iloc.items@[1].extents@[0].offset == IlocOffset::Absolute(base as u32),
        resolved.iloc.items@[1].extents@[0].len == alpha_len,
        resolved.iloc.items@[0].extents@[0].offset == IlocOffset::Absolute(
            (alpha_len + base) as u32,
        ),
        resolved.iloc.items@[0].extents@[0].len == color_len,
{
}


} // verus!
