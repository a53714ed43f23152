//! Typed configuration-object codec.
//!
//! Each supported object type id has one fixed packed layout: a flat
//! byte-for-byte structure with no padding, multi-byte fields little-endian.
//! Decoding reinterprets the first N bytes of the object's raw data, where N
//! is the layout's byte size. Each layout carries a `decodes_from` predicate
//! that pins every field to its wire byte; decoding ensures it, and the one
//! encoded layout (the command processor) produces bytes satisfying the same
//! predicate, so encode and decode agree on the layout by construction.

use crate::error::MtError;
use vstd::prelude::*;

verus! {

/// Object type id of the command processor object.
pub const COMMAND_OBJECT_ID: u8 = 6;

/// Object type id of the diagnostic-data object.
pub const DEBUG_OBJECT_ID: u8 = 37;

/// The 16-bit value stored little-endian at byte offset `i`.
pub open spec fn le16_at(b: Seq<u8>, i: int) -> u16 {
    (((b[i + 1] as u16) << 8) | (b[i] as u16))
}

/// The signed 16-bit value stored little-endian at byte offset `i`.
pub open spec fn le_i16_at(b: Seq<u8>, i: int) -> i16 {
    le16_at(b, i) as i16
}

/// Read the 16-bit value stored little-endian at byte offset `i`.
fn get_le16(b: &Vec<u8>, i: usize) -> (r: u16)
    requires
        i + 2 <= b@.len(),
    ensures
        r == le16_at(b@, i as int),
{
    let _len = b.len();
    ((b[i + 1] as u16) << 8) | (b[i] as u16)
}

/// Read the signed 16-bit value stored little-endian at byte offset `i`.
fn get_le_i16(b: &Vec<u8>, i: usize) -> (r: i16)
    requires
        i + 2 <= b@.len(),
    ensures
        r == le_i16_at(b@, i as int),
{
    get_le16(b, i) as i16
}

/// Read the diagnostic sample of node slot `k` out of a page: two bytes
/// little-endian after the two header bytes.
pub fn diag_sample(data: &Vec<u8>, k: usize) -> (s: i16)
    requires
        2 + 2 * k + 2 <= data@.len(),
    ensures
        s == le_i16_at(data@, 2 + 2 * k as int),
{
    let _len = data.len();
    get_le_i16(data, 2 + 2 * k)
}

/// T6 command processor: written to select a diagnostic mode or advance the
/// diagnostic page.
#[derive(Clone, Copy, PartialEq, Eq, Debug)]
pub struct T6CommandProcessor {
    pub reset: u8,
    pub backupnv: u8,
    pub calibrate: u8,
    pub reportall: u8,
    pub debugctrl: u8,
    pub diagnostic: u8,
    pub debugctrl2: u8,
}

impl T6CommandProcessor {
    /// Byte size of this layout on the wire.
    pub const SIZE: usize = 7;

    /// The fields are exactly the first seven wire bytes.
    pub open spec fn decodes_from(self, b: Seq<u8>) -> bool {
        &&& b.len() >= 7
        &&& self.reset == b[0]
        &&& self.backupnv == b[1]
        &&& self.calibrate == b[2]
        &&& self.reportall == b[3]
        &&& self.debugctrl == b[4]
        &&& self.diagnostic == b[5]
        &&& self.debugctrl2 == b[6]
    }

    /// A command that only sets the diagnostic selector.
    pub fn diagnostic_command(mode: u8) -> (t: T6CommandProcessor)
        ensures
            t.diagnostic == mode,
            t.reset == 0 && t.backupnv == 0 && t.calibrate == 0 && t.reportall == 0,
            t.debugctrl == 0 && t.debugctrl2 == 0,
    {
        T6CommandProcessor {
            reset: 0,
            backupnv: 0,
            calibrate: 0,
            reportall: 0,
            debugctrl: 0,
            diagnostic: mode,
            debugctrl2: 0,
        }
    }

    /// Encode the command into its seven wire bytes.
    pub fn to_bytes(&self) -> (r: Vec<u8>)
        ensures
            r@.len() == 7,
            self.decodes_from(r@),
    {
        let mut r: Vec<u8> = Vec::new();
        r.push(self.reset);
        r.push(self.backupnv);
        r.push(self.calibrate);
        r.push(self.reportall);
        r.push(self.debugctrl);
        r.push(self.diagnostic);
        r.push(self.debugctrl2);
        r
    }
}

/// T7 power configuration.
#[derive(Clone, Copy, PartialEq, Eq, Debug)]
pub struct T7PowerConfig {
    pub idleacqint: u8,
    pub actacqint: u8,
    pub actv2idelto: u8,
    pub cfg: u8,
    pub cfg2: u8,
    pub idleacqintfine: u8,
    pub actvaqintfine: u8,
}

impl T7PowerConfig {
    /// Byte size of this layout on the wire.
    pub const SIZE: usize = 7;

    /// The fields are exactly the first seven wire bytes.
    pub open spec fn decodes_from(self, b: Seq<u8>) -> bool {
        &&& b.len() >= 7
        &&& self.idleacqint == b[0]
        &&& self.actacqint == b[1]
        &&& self.actv2idelto == b[2]
        &&& self.cfg == b[3]
        &&& self.cfg2 == b[4]
        &&& self.idleacqintfine == b[5]
        &&& self.actvaqintfine == b[6]
    }

    /// Decode from the object's raw bytes.
    pub fn from_bytes(b: &Vec<u8>) -> (r: T7PowerConfig)
        requires
            b@.len() >= 7,
        ensures
            r.decodes_from(b@),
    {
        T7PowerConfig {
            idleacqint: b[0],
            actacqint: b[1],
            actv2idelto: b[2],
            cfg: b[3],
            cfg2: b[4],
            idleacqintfine: b[5],
            actvaqintfine: b[6],
        }
    }
}

/// T8 acquisition configuration.
#[derive(Clone, Copy, PartialEq, Eq, Debug)]
pub struct T8AcquisitionConfig {
    pub chrgtime: u8,
    pub reserved: u8,
    pub tchdrift: u8,
    pub driftst: u8,
    pub tchautocal: u8,
    pub sync: u8,
    pub atchcalst: u8,
    pub atchcalsthr: u8,
    pub atchfrccalthr: u8,
    pub atchfrccalratio: u8,
    pub measallow: u8,
    pub reserved2: [u8; 3],
    pub cfg: u8,
}

impl T8AcquisitionConfig {
    /// Byte size of this layout on the wire.
    pub const SIZE: usize = 15;

    /// The fields are exactly the first fifteen wire bytes.
    pub open spec fn decodes_from(self, b: Seq<u8>) -> bool {
        &&& b.len() >= 15
        &&& self.chrgtime == b[0]
        &&& self.reserved == b[1]
        &&& self.tchdrift == b[2]
        &&& self.driftst == b[3]
        &&& self.tchautocal == b[4]
        &&& self.sync == b[5]
        &&& self.atchcalst == b[6]
        &&& self.atchcalsthr == b[7]
        &&& self.atchfrccalthr == b[8]
        &&& self.atchfrccalratio == b[9]
        &&& self.measallow == b[10]
        &&& self.reserved2@ =~= b.subrange(11, 14)
        &&& self.cfg == b[14]
    }

    /// Decode from the object's raw bytes.
    pub fn from_bytes(b: &Vec<u8>) -> (r: T8AcquisitionConfig)
        requires
            b@.len() >= 15,
        ensures
            r.decodes_from(b@),
    {
        T8AcquisitionConfig {
            chrgtime: b[0],
            reserved: b[1],
            tchdrift: b[2],
            driftst: b[3],
            tchautocal: b[4],
            sync: b[5],
            atchcalst: b[6],
            atchcalsthr: b[7],
            atchfrccalthr: b[8],
            atchfrccalratio: b[9],
            measallow: b[10],
            reserved2: [b[11], b[12], b[13]],
            cfg: b[14],
        }
    }
}

/// T42 touch suppression.
#[derive(Clone, Copy, PartialEq, Eq, Debug)]
pub struct T42TouchSupression {
    pub ctrl: u8,
    pub reserved: u8,
    pub maxapprarea: u8,
    pub maxtcharea: u8,
    pub supstrength: u8,
    pub supextto: u8,
    pub maxnumtchs: u8,
    pub shapestrength: u8,
    pub supdist: u8,
    pub disthyst: u8,
    pub maxscrnarea: u8,
    pub cfg: u8,
    pub reserved2: u8,
    pub edgesupstrength: u8,
}

impl T42TouchSupression {
    /// Byte size of this layout on the wire.
    pub const SIZE: usize = 14;

    /// The fields are exactly the first fourteen wire bytes.
    pub open spec fn decodes_from(self, b: Seq<u8>) -> bool {
        &&& b.len() >= 14
        &&& self.ctrl == b[0]
        &&& self.reserved == b[1]
        &&& self.maxapprarea == b[2]
        &&& self.maxtcharea == b[3]
        &&& self.supstrength == b[4]
        &&& self.supextto == b[5]
        &&& self.maxnumtchs == b[6]
        &&& self.shapestrength == b[7]
        &&& self.supdist == b[8]
        &&& self.disthyst == b[9]
        &&& self.maxscrnarea == b[10]
        &&& self.cfg == b[11]
        &&& self.reserved2 == b[12]
        &&& self.edgesupstrength == b[13]
    }

    /// Decode from the object's raw bytes.
    pub fn from_bytes(b: &Vec<u8>) -> (r: T42TouchSupression)
        requires
            b@.len() >= 14,
        ensures
            r.decodes_from(b@),
    {
        T42TouchSupression {
            ctrl: b[0],
            reserved: b[1],
            maxapprarea: b[2],
            maxtcharea: b[3],
            supstrength: b[4],
            supextto: b[5],
            maxnumtchs: b[6],
            shapestrength: b[7],
            supdist: b[8],
            disthyst: b[9],
            maxscrnarea: b[10],
            cfg: b[11],
            reserved2: b[12],
            edgesupstrength: b[13],
        }
    }
}

/// T46 charge-transfer engine configuration.
#[derive(Clone, Copy, PartialEq, Eq, Debug)]
pub struct T46CteConfig {
    pub reserved: [u8; 2],
    pub idlesyncsperx: u8,
    pub activesyncsperx: u8,
    pub adcspersync: u8,
    pub pulsesperadc: u8,
    pub xslew: u8,
    pub syncdelay: i16,
    pub xvoltage: u8,
    pub reserved2: u8,
    pub inrushcfg: u8,
    pub reserved3: [u8; 6],
    pub cfg: u8,
}

impl T46CteConfig {
    /// Byte size of this layout on the wire.
    pub const SIZE: usize = 19;

    /// The fields are exactly the first nineteen wire bytes.
    pub open spec fn decodes_from(self, b: Seq<u8>) -> bool {
        &&& b.len() >= 19
        &&& self.reserved@ =~= b.subrange(0, 2)
        &&& self.idlesyncsperx == b[2]
        &&& self.activesyncsperx == b[3]
        &&& self.adcspersync == b[4]
        &&& self.pulsesperadc == b[5]
        &&& self.xslew == b[6]
        &&& self.syncdelay == le_i16_at(b, 7)
        &&& self.xvoltage == b[9]
        &&& self.reserved2 == b[10]
        &&& self.inrushcfg == b[11]
        &&& self.reserved3@ =~= b.subrange(12, 18)
        &&& self.cfg == b[18]
    }

    /// Decode from the object's raw bytes.
    pub fn from_bytes(b: &Vec<u8>) -> (r: T46CteConfig)
        requires
            b@.len() >= 19,
        ensures
            r.decodes_from(b@),
    {
        T46CteConfig {
            reserved: [b[0], b[1]],
            idlesyncsperx: b[2],
            activesyncsperx: b[3],
            adcspersync: b[4],
            pulsesperadc: b[5],
            xslew: b[6],
            syncdelay: get_le_i16(b, 7),
            xvoltage: b[9],
            reserved2: b[10],
            inrushcfg: b[11],
            reserved3: [b[12], b[13], b[14], b[15], b[16], b[17]],
            cfg: b[18],
        }
    }
}

/// T47 stylus processing.
#[derive(Clone, Copy, PartialEq, Eq, Debug)]
pub struct T47ProciStylus {
    pub ctrl: u8,
    pub reserved: u8,
    pub contmax: u8,
    pub stability: u8,
    pub maxtcharea: u8,
    pub amplthr: u8,
    pub styshape: u8,
    pub hoversup: u8,
    pub confthr: u8,
    pub syncsperx: u8,
    pub xposadj: u8,
    pub yposadj: u8,
    pub cfg: u8,
    pub reserved2: [u8; 7],
    pub supstyto: u8,
    pub maxnumsty: u8,
    pub xedgectrl: u8,
    pub yedgectrl: u8,
    pub supto: u8,
    pub supclassmode: u8,
    pub dxxedgectrl: u8,
    pub dxxedgedist: u8,
    pub xedgectrlhi: u8,
    pub xedgedisthi: u8,
    pub dxxedgectrlhi: u8,
    pub dxxedgedisthi: u8,
    pub yedgectrlhi: u8,
    pub yedgedisthi: u8,
    pub cfg2: u8,
    pub movfilter: u8,
    pub movsmooth: u8,
    pub movpred: u8,
    pub satbxlo: u8,
    pub satbxhi: u8,
    pub satbylo: u8,
    pub satbyhi: u8,
    pub satbdxxlo: u8,
    pub satbdxxhi: u8,
    pub movhistcfg: u8,
}

impl T47ProciStylus {
    /// Byte size of this layout on the wire.
    pub const SIZE: usize = 45;

    /// The fields are exactly the first forty-five wire bytes.
    pub open spec fn decodes_from(self, b: Seq<u8>) -> bool {
        &&& b.len() >= 45
        &&& self.ctrl == b[0]
        &&& self.reserved == b[1]
        &&& self.contmax == b[2]
        &&& self.stability == b[3]
        &&& self.maxtcharea == b[4]
        &&& self.amplthr == b[5]
        &&& self.styshape == b[6]
        &&& self.hoversup == b[7]
        &&& self.confthr == b[8]
        &&& self.syncsperx == b[9]
        &&& self.xposadj == b[10]
        &&& self.yposadj == b[11]
        &&& self.cfg == b[12]
        &&& self.reserved2@ =~= b.subrange(13, 20)
        &&& self.supstyto == b[20]
        &&& self.maxnumsty == b[21]
        &&& self.xedgectrl == b[22]
        &&& self.yedgectrl == b[23]
        &&& self.supto == b[24]
        &&& self.supclassmode == b[25]
        &&& self.dxxedgectrl == b[26]
        &&& self.dxxedgedist == b[27]
        &&& self.xedgectrlhi == b[28]
        &&& self.xedgedisthi == b[29]
        &&& self.dxxedgectrlhi == b[30]
        &&& self.dxxedgedisthi == b[31]
        &&& self.yedgectrlhi == b[32]
        &&& self.yedgedisthi == b[33]
        &&& self.cfg2 == b[34]
        &&& self.movfilter == b[35]
        &&& self.movsmooth == b[36]
        &&& self.movpred == b[37]
        &&& self.satbxlo == b[38]
        &&& self.satbxhi == b[39]
        &&& self.satbylo == b[40]
        &&& self.satbyhi == b[41]
        &&& self.satbdxxlo == b[42]
        &&& self.satbdxxhi == b[43]
        &&& self.movhistcfg == b[44]
    }

    /// Decode from the object's raw bytes.
    pub fn from_bytes(b: &Vec<u8>) -> (r: T47ProciStylus)
        requires
            b@.len() >= 45,
        ensures
            r.decodes_from(b@),
    {
        T47ProciStylus {
            ctrl: b[0],
            reserved: b[1],
            contmax: b[2],
            stability: b[3],
            maxtcharea: b[4],
            amplthr: b[5],
            styshape: b[6],
            hoversup: b[7],
            confthr: b[8],
            syncsperx: b[9],
            xposadj: b[10],
            yposadj: b[11],
            cfg: b[12],
            reserved2: [b[13], b[14], b[15], b[16], b[17], b[18], b[19]],
            supstyto: b[20],
            maxnumsty: b[21],
            xedgectrl: b[22],
            yedgectrl: b[23],
            supto: b[24],
            supclassmode: b[25],
            dxxedgectrl: b[26],
            dxxedgedist: b[27],
            xedgectrlhi: b[28],
            xedgedisthi: b[29],
            dxxedgectrlhi: b[30],
            dxxedgedisthi: b[31],
            yedgectrlhi: b[32],
            yedgedisthi: b[33],
            cfg2: b[34],
            movfilter: b[35],
            movsmooth: b[36],
            movpred: b[37],
            satbxlo: b[38],
            satbxhi: b[39],
            satbylo: b[40],
            satbyhi: b[41],
            satbdxxlo: b[42],
            satbdxxhi: b[43],
            movhistcfg: b[44],
        }
    }
}

/// T56 shieldless configuration. The controller's real payload length for
/// this object varies with its transmit-pin count; raw data is zero-padded
/// up to this fixed maximum before decoding.
#[derive(Clone, Copy, PartialEq, Eq, Debug)]
pub struct T56Shieldless {
    pub ctrl: u8,
    pub reserved: u8,
    pub optint: u8,
    pub inttime: u8,
    pub intdelay: [u8; 41],
}

impl T56Shieldless {
    /// Byte size of this layout on the wire, padding included.
    pub const SIZE: usize = 45;

    /// The fields are exactly the first forty-five wire bytes.
    pub open spec fn decodes_from(self, b: Seq<u8>) -> bool {
        &&& b.len() >= 45
        &&& self.ctrl == b[0]
        &&& self.reserved == b[1]
        &&& self.optint == b[2]
        &&& self.inttime == b[3]
        &&& self.intdelay@ =~= b.subrange(4, 45)
    }

    /// Decode from the object's raw bytes, already padded to [`Self::SIZE`].
    pub fn from_bytes(b: &Vec<u8>) -> (r: T56Shieldless)
        requires
            b@.len() >= 45,
        ensures
            r.decodes_from(b@),
    {
        T56Shieldless {
            ctrl: b[0],
            reserved: b[1],
            optint: b[2],
            inttime: b[3],
            intdelay: [
                b[4],
                b[5],
                b[6],
                b[7],
                b[8],
                b[9],
                b[10],
                b[11],
                b[12],
                b[13],
                b[14],
                b[15],
                b[16],
                b[17],
                b[18],
                b[19],
                b[20],
                b[21],
                b[22],
                b[23],
                b[24],
                b[25],
                b[26],
                b[27],
                b[28],
                b[29],
                b[30],
                b[31],
                b[32],
                b[33],
                b[34],
                b[35],
                b[36],
                b[37],
                b[38],
                b[39],
                b[40],
                b[41],
                b[42],
                b[43],
                b[44],
            ],
        }
    }
}

/// T65 lens bending compensation.
#[derive(Clone, Copy, PartialEq, Eq, Debug)]
pub struct T65LensBending {
    pub ctrl: u8,
    pub gradthr: u8,
    pub ylonoisemul: u16,
    pub ylonoisediv: u16,
    pub yhinoisemul: u16,
    pub yhinoisediv: u16,
    pub lpfiltcoef: u8,
    pub forcescale: u16,
    pub forcethr: u8,
    pub forcethrhyst: u8,
    pub forcedi: u8,
    pub forcehyst: u8,
    pub atchratio: u8,
    pub reserved: [u8; 2],
    pub exfrcthr: u8,
    pub exfrcthrhyst: u8,
    pub exfrcto: u8,
}

impl T65LensBending {
    /// Byte size of this layout on the wire.
    pub const SIZE: usize = 23;

    /// The fields are exactly the first twenty-three wire bytes.
    pub open spec fn decodes_from(self, b: Seq<u8>) -> bool {
        &&& b.len() >= 23
        &&& self.ctrl == b[0]
        &&& self.gradthr == b[1]
        &&& self.ylonoisemul == le16_at(b, 2)
        &&& self.ylonoisediv == le16_at(b, 4)
        &&& self.yhinoisemul == le16_at(b, 6)
        &&& self.yhinoisediv == le16_at(b, 8)
        &&& self.lpfiltcoef == b[10]
        &&& self.forcescale == le16_at(b, 11)
        &&& self.forcethr == b[13]
        &&& self.forcethrhyst == b[14]
        &&& self.forcedi == b[15]
        &&& self.forcehyst == b[16]
        &&& self.atchratio == b[17]
        &&& self.reserved@ =~= b.subrange(18, 20)
        &&& self.exfrcthr == b[20]
        &&& self.exfrcthrhyst == b[21]
        &&& self.exfrcto == b[22]
    }

    /// Decode from the object's raw bytes.
    pub fn from_bytes(b: &Vec<u8>) -> (r: T65LensBending)
        requires
            b@.len() >= 23,
        ensures
            r.decodes_from(b@),
    {
        T65LensBending {
            ctrl: b[0],
            gradthr: b[1],
            ylonoisemul: get_le16(b, 2),
            ylonoisediv: get_le16(b, 4),
            yhinoisemul: get_le16(b, 6),
            yhinoisediv: get_le16(b, 8),
            lpfiltcoef: b[10],
            forcescale: get_le16(b, 11),
            forcethr: b[13],
            forcethrhyst: b[14],
            forcedi: b[15],
            forcehyst: b[16],
            atchratio: b[17],
            reserved: [b[18], b[19]],
            exfrcthr: b[20],
            exfrcthrhyst: b[21],
            exfrcto: b[22],
        }
    }
}

/// T80 retransmission compensation.
#[derive(Clone, Copy, PartialEq, Eq, Debug)]
pub struct T80RetransmissionCompensation {
    pub ctrl: u8,
    pub compgain: u8,
    pub targetdelta: u8,
    pub compthr: u8,
    pub atchthr: u8,
    pub moistcfg: u8,
    pub reserved: u8,
    pub moistthr: u8,
    pub moistinvtchthr: u8,
    pub moistcfg2: u8,
    pub compstrthr: u8,
    pub compcfg: u8,
    pub moistvldthrsf: u8,
    pub moistcfg3: u8,
    pub moistdegthr: u8,
}

impl T80RetransmissionCompensation {
    /// Byte size of this layout on the wire.
    pub const SIZE: usize = 15;

    /// The fields are exactly the first fifteen wire bytes.
    pub open spec fn decodes_from(self, b: Seq<u8>) -> bool {
        &&& b.len() >= 15
        &&& self.ctrl == b[0]
        &&& self.compgain == b[1]
        &&& self.targetdelta == b[2]
        &&& self.compthr == b[3]
        &&& self.atchthr == b[4]
        &&& self.moistcfg == b[5]
        &&& self.reserved == b[6]
        &&& self.moistthr == b[7]
        &&& self.moistinvtchthr == b[8]
        &&& self.moistcfg2 == b[9]
        &&& self.compstrthr == b[10]
        &&& self.compcfg == b[11]
        &&& self.moistvldthrsf == b[12]
        &&& self.moistcfg3 == b[13]
        &&& self.moistdegthr == b[14]
    }

    /// Decode from the object's raw bytes.
    pub fn from_bytes(b: &Vec<u8>) -> (r: T80RetransmissionCompensation)
        requires
            b@.len() >= 15,
        ensures
            r.decodes_from(b@),
    {
        T80RetransmissionCompensation {
            ctrl: b[0],
            compgain: b[1],
            targetdelta: b[2],
            compthr: b[3],
            atchthr: b[4],
            moistcfg: b[5],
            reserved: b[6],
            moistthr: b[7],
            moistinvtchthr: b[8],
            moistcfg2: b[9],
            compstrthr: b[10],
            compcfg: b[11],
            moistvldthrsf: b[12],
            moistcfg3: b[13],
            moistdegthr: b[14],
        }
    }
}

/// T100 multiple-touch touchscreen. Bits 7, 6 and 5 of `cfg1` carry the
/// invert-x, invert-y and swap-xy orientation flags.
#[derive(Clone, Copy, PartialEq, Eq, Debug)]
pub struct T100MultipleTouchTouchscreen {
    pub ctrl: u8,
    pub cfg1: u8,
    pub scraux: u8,
    pub tchaux: u8,
    pub tcheventcfg: u8,
    pub akscfg: u8,
    pub numtch: u8,
    pub xycfg: u8,
    pub xorigin: u8,
    pub xsize: u8,
    pub xpitch: u8,
    pub xlocip: u8,
    pub xhiclip: u8,
    pub xrange: u16,
    pub xedgecfg: u8,
    pub xedgedist: u8,
    pub dxxedgecfg: u8,
    pub dxxedgedist: u8,
    pub yorigin: u8,
    pub ysize: u8,
    pub ypitch: u8,
    pub ylocip: u8,
    pub yhiclip: u8,
    pub yrange: u16,
    pub yedgecfg: u8,
    pub yedgedist: u8,
    pub gain: u8,
    pub dxgain: u8,
    pub tchthr: u8,
    pub tchhyst: u8,
    pub intthr: u8,
    pub noisesf: u8,
    pub cutoffthr: u8,
    pub mrgthr: u8,
    pub mrgthradjstr: u8,
    pub mrghyst: u8,
    pub dxthrsf: u8,
    pub tchdidown: u8,
    pub tchdiup: u8,
    pub nexttchdi: u8,
    pub calcfg: u8,
    pub jumplimit: u8,
    pub movfilter: u8,
    pub movsmooth: u8,
    pub movpred: u8,
    pub movhysti: u16,
    pub movhystn: u16,
    pub amplhyst: u8,
    pub scrareahyst: u8,
    pub intthryst: u8,
    pub xedgecfghi: u8,
    pub xedgedisthi: u8,
    pub dxxedgecfghi: u8,
    pub dxxedgedisthi: u8,
    pub yedgecfghi: u8,
    pub yedgedisthi: u8,
    pub cfg2: u8,
    pub movhystcfg: u8,
    pub amplcoeff: u8,
    pub amploffset: u8,
    pub jumplimitmov: u8,
    pub jlmmovthr: u16,
    pub jlmmovintthr: u8,
}

impl T100MultipleTouchTouchscreen {
    /// Byte size of this layout on the wire.
    pub const SIZE: usize = 68;

    /// The fields are exactly the first sixty-eight wire bytes.
    pub open spec fn decodes_from(self, b: Seq<u8>) -> bool {
        &&& b.len() >= 68
        &&& self.ctrl == b[0]
        &&& self.cfg1 == b[1]
        &&& self.scraux == b[2]
        &&& self.tchaux == b[3]
        &&& self.tcheventcfg == b[4]
        &&& self.akscfg == b[5]
        &&& self.numtch == b[6]
        &&& self.xycfg == b[7]
        &&& self.xorigin == b[8]
        &&& self.xsize == b[9]
        &&& self.xpitch == b[10]
        &&& self.xlocip == b[11]
        &&& self.xhiclip == b[12]
        &&& self.xrange == le16_at(b, 13)
        &&& self.xedgecfg == b[15]
        &&& self.xedgedist == b[16]
        &&& self.dxxedgecfg == b[17]
        &&& self.dxxedgedist == b[18]
        &&& self.yorigin == b[19]
        &&& self.ysize == b[20]
        &&& self.ypitch == b[21]
        &&& self.ylocip == b[22]
        &&& self.yhiclip == b[23]
        &&& self.yrange == le16_at(b, 24)
        &&& self.yedgecfg == b[26]
        &&& self.yedgedist == b[27]
        &&& self.gain == b[28]
        &&& self.dxgain == b[29]
        &&& self.tchthr == b[30]
        &&& self.tchhyst == b[31]
        &&& self.intthr == b[32]
        &&& self.noisesf == b[33]
        &&& self.cutoffthr == b[34]
        &&& self.mrgthr == b[35]
        &&& self.mrgthradjstr == b[36]
        &&& self.mrghyst == b[37]
        &&& self.dxthrsf == b[38]
        &&& self.tchdidown == b[39]
        &&& self.tchdiup == b[40]
        &&& self.nexttchdi == b[41]
        &&& self.calcfg == b[42]
        &&& self.jumplimit == b[43]
        &&& self.movfilter == b[44]
        &&& self.movsmooth == b[45]
        &&& self.movpred == b[46]
        &&& self.movhysti == le16_at(b, 47)
        &&& self.movhystn == le16_at(b, 49)
        &&& self.amplhyst == b[51]
        &&& self.scrareahyst == b[52]
        &&& self.intthryst == b[53]
        &&& self.xedgecfghi == b[54]
        &&& self.xedgedisthi == b[55]
        &&& self.dxxedgecfghi == b[56]
        &&& self.dxxedgedisthi == b[57]
        &&& self.yedgecfghi == b[58]
        &&& self.yedgedisthi == b[59]
        &&& self.cfg2 == b[60]
        &&& self.movhystcfg == b[61]
        &&& self.amplcoeff == b[62]
        &&& self.amploffset == b[63]
        &&& self.jumplimitmov == b[64]
        &&& self.jlmmovthr == le16_at(b, 65)
        &&& self.jlmmovintthr == b[67]
    }

    /// Decode from the object's raw bytes.
    pub fn from_bytes(b: &Vec<u8>) -> (r: T100MultipleTouchTouchscreen)
        requires
            b@.len() >= 68,
        ensures
            r.decodes_from(b@),
    {
        T100MultipleTouchTouchscreen {
            ctrl: b[0],
            cfg1: b[1],
            scraux: b[2],
            tchaux: b[3],
            tcheventcfg: b[4],
            akscfg: b[5],
            numtch: b[6],
            xycfg: b[7],
            xorigin: b[8],
            xsize: b[9],
            xpitch: b[10],
            xlocip: b[11],
            xhiclip: b[12],
            xrange: get_le16(b, 13),
            xedgecfg: b[15],
            xedgedist: b[16],
            dxxedgecfg: b[17],
            dxxedgedist: b[18],
            yorigin: b[19],
            ysize: b[20],
            ypitch: b[21],
            ylocip: b[22],
            yhiclip: b[23],
            yrange: get_le16(b, 24),
            yedgecfg: b[26],
            yedgedist: b[27],
            gain: b[28],
            dxgain: b[29],
            tchthr: b[30],
            tchhyst: b[31],
            intthr: b[32],
            noisesf: b[33],
            cutoffthr: b[34],
            mrgthr: b[35],
            mrgthradjstr: b[36],
            mrghyst: b[37],
            dxthrsf: b[38],
            tchdidown: b[39],
            tchdiup: b[40],
            nexttchdi: b[41],
            calcfg: b[42],
            jumplimit: b[43],
            movfilter: b[44],
            movsmooth: b[45],
            movpred: b[46],
            movhysti: get_le16(b, 47),
            movhystn: get_le16(b, 49),
            amplhyst: b[51],
            scrareahyst: b[52],
            intthryst: b[53],
            xedgecfghi: b[54],
            xedgedisthi: b[55],
            dxxedgecfghi: b[56],
            dxxedgedisthi: b[57],
            yedgecfghi: b[58],
            yedgedisthi: b[59],
            cfg2: b[60],
            movhystcfg: b[61],
            amplcoeff: b[62],
            amploffset: b[63],
            jumplimitmov: b[64],
            jlmmovthr: get_le16(b, 65),
            jlmmovintthr: b[67],
        }
    }
}

/// One decoded configuration object, by object type id.
#[derive(Clone, Copy, PartialEq, Eq, Debug)]
pub enum DecodedObject {
    T7(T7PowerConfig),
    T8(T8AcquisitionConfig),
    T42(T42TouchSupression),
    T46(T46CteConfig),
    T47(T47ProciStylus),
    T56(T56Shieldless),
    T65(T65LensBending),
    T80(T80RetransmissionCompensation),
    T100(T100MultipleTouchTouchscreen),
}

/// Whether a decode layout is registered for this object type id.
pub open spec fn is_decodable(id: u8) -> bool {
    id == 7 || id == 8 || id == 42 || id == 46 || id == 47 || id == 56 || id == 65 || id == 80
        || id == 100
}

/// The byte size of the layout registered for a decodable id.
pub open spec fn decode_size(id: u8) -> int {
    if id == 7 {
        7
    } else if id == 8 {
        15
    } else if id == 42 {
        14
    } else if id == 46 {
        19
    } else if id == 47 {
        45
    } else if id == 56 {
        45
    } else if id == 65 {
        23
    } else if id == 80 {
        15
    } else {
        68
    }
}

/// Whether `len` bytes of raw data are enough to decode as the layout
/// registered for `id`. The variable-length layout is zero-padded, so any
/// length will do for it, as for an id with no layout at all.
pub fn decode_data_ready(id: u8, len: usize) -> (r: bool)
    ensures
        r == (is_decodable(id) && id != 56 ==> len >= decode_size(id)),
{
    match id {
        7 => len >= 7,
        8 => len >= 15,
        42 => len >= 14,
        46 => len >= 19,
        47 => len >= 45,
        65 => len >= 23,
        80 => len >= 15,
        100 => len >= 68,
        _ => true,
    }
}

/// Raw bytes zero-padded up to the fixed maximum of the variable-length
/// layout.
pub open spec fn zero_padded(b: Seq<u8>, n: int) -> Seq<u8> {
    if b.len() >= n {
        b
    } else {
        b + Seq::new((n - b.len()) as nat, |i: int| 0u8)
    }
}

/// Decode an object's raw bytes as the layout registered for its id.
///
/// An id with no registered layout is a documented capability gap, not an
/// I/O failure: it reports `NotSerializable`. The variable-length layout's
/// bytes are zero-padded up to its fixed maximum first; every other layout
/// reinterprets the first `decode_size(id)` bytes as they are.
pub fn decode_object(id: u8, data: &Vec<u8>) -> (r: Result<DecodedObject, MtError>)
    requires
        is_decodable(id) && id != 56 ==> data@.len() >= decode_size(id),
    ensures
        r is Ok <==> is_decodable(id),
        r is Err ==> r->Err_0 == MtError::NotSerializable(id),
        id == 7 ==> (r->Ok_0 matches DecodedObject::T7(t) && t.decodes_from(data@)),
        id == 8 ==> (r->Ok_0 matches DecodedObject::T8(t) && t.decodes_from(data@)),
        id == 42 ==> (r->Ok_0 matches DecodedObject::T42(t) && t.decodes_from(data@)),
        id == 46 ==> (r->Ok_0 matches DecodedObject::T46(t) && t.decodes_from(data@)),
        id == 47 ==> (r->Ok_0 matches DecodedObject::T47(t) && t.decodes_from(data@)),
        id == 56 ==> (r->Ok_0 matches DecodedObject::T56(t) && t.decodes_from(
            zero_padded(data@, 45),
        )),
        id == 65 ==> (r->Ok_0 matches DecodedObject::T65(t) && t.decodes_from(data@)),
        id == 80 ==> (r->Ok_0 matches DecodedObject::T80(t) && t.decodes_from(data@)),
        id == 100 ==> (r->Ok_0 matches DecodedObject::T100(t) && t.decodes_from(data@)),
{
    match id {
        7 => Ok(DecodedObject::T7(T7PowerConfig::from_bytes(data))),
        8 => Ok(DecodedObject::T8(T8AcquisitionConfig::from_bytes(data))),
        42 => Ok(DecodedObject::T42(T42TouchSupression::from_bytes(data))),
        46 => Ok(DecodedObject::T46(T46CteConfig::from_bytes(data))),
        47 => Ok(DecodedObject::T47(T47ProciStylus::from_bytes(data))),
        56 => {
            let mut padded: Vec<u8> = Vec::new();
            let n = data.len();
            let mut i: usize = 0;
            while i < n
                invariant
                    i <= n,
                    n == data@.len(),
                    padded@ == data@.take(i as int),
                decreases n - i,
            {
                padded.push(data[i]);
                proof {
                    assert(data@.take(i + 1 as int) =~= data@.take(i as int).push(data@[i as int]));
                }
                i = i + 1;
            }
            proof {
                assert(padded@ =~= data@);
            }
            while padded.len() < 45
                invariant
                    padded@.len() >= data@.len(),
                    padded@.len() <= 45 || padded@.len() == data@.len(),
                    padded@.subrange(0, data@.len() as int) =~= data@,
                    forall|j: int| data@.len() <= j < padded@.len() ==> padded@[j] == 0u8,
                decreases 45 - padded@.len(),
            {
                padded.push(0);
            }
            proof {
                assert(padded@ =~= zero_padded(data@, 45));
            }
            Ok(DecodedObject::T56(T56Shieldless::from_bytes(&padded)))
        },
        65 => Ok(DecodedObject::T65(T65LensBending::from_bytes(data))),
        80 => Ok(DecodedObject::T80(T80RetransmissionCompensation::from_bytes(data))),
        100 => Ok(DecodedObject::T100(T100MultipleTouchTouchscreen::from_bytes(data))),
        _ => Err(MtError::NotSerializable(id)),
    }
}

} // verus!
