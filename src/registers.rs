use vstd::prelude::*;

use crate::field::Field;

verus! {

// Register offsets. Framer registers are relative to a channel's base,
// LIU registers to the channel's LIU block, timeslot registers to a
// timeslot's base; global registers are absolute.

/// LIU global control register 4: the master clock select.
pub const LIUGCR4: u16 = 0x0fe9;

/// Clock and select register.
pub const CSR: u16 = 0x0100;

/// Line interface control register.
pub const LICR: u16 = 0x0101;

/// Framing select register.
pub const FSR: u16 = 0x0107;

/// Synchronization MUX register.
pub const SMR: u16 = 0x0109;

/// Data link control register 1 (HDLC1, the facility data link).
///
/// Programmed by read-modify-write: its other bits belong to live data link
/// and report state.
pub const DLCR1: u16 = 0x010a;

/// Framing control register.
pub const FCR: u16 = 0x010b;

/// Performance report control register.
///
/// Programmed by read-modify-write: its other bits belong to live data link
/// and report state.
pub const PRCR: u16 = 0x0111;

/// Slip buffer control register.
pub const SBCR: u16 = 0x0116;

/// Transmit interface control register.
pub const TICR: u16 = 0x0120;

/// Receive interface control register.
pub const RICR: u16 = 0x0122;

/// Transmit performance report message control register.
///
/// Programmed by read-modify-write: its other bits belong to live data link
/// and report state.
pub const TSPRMCR: u16 = 0x0142;

/// LIU channel control register 0.
pub const LIUCCR0: u16 = 0x0000;

/// LIU channel control register 1.
pub const LIUCCR1: u16 = 0x0001;

/// LIU channel control register 2.
pub const LIUCCR2: u16 = 0x0002;

/// Transmit channel control register.
pub const TCCR: u16 = 0x0300;

/// Transmit user code register.
pub const TUCR: u16 = 0x0320;

/// Transmit signaling control register.
pub const TSCR: u16 = 0x0340;

/// Receive channel control register.
pub const RCCR: u16 = 0x0360;

/// Receive user code register.
pub const RUCR: u16 = 0x0380;

/// Receive signaling control register.
pub const RSCR: u16 = 0x03a0;

/// Receive signaling status register.
pub const RSSR: u16 = 0x0500;

/// The fields of LIUGCR4, the LIU global control register 4: the master clock select.
#[allow(non_camel_case_types)]
#[derive(Clone, Copy, Debug, PartialEq, Eq, Structural)]
pub enum Liugcr4Field {
    CLKSEL,
}

impl Liugcr4Field {
    pub open spec fn layout(self) -> Field {
        match self {
            Liugcr4Field::CLKSEL => Field { offset: 0, width: 4 },
        }
    }

    pub fn field(self) -> (r: Field)
        ensures
            r == self.layout(),
            r.wf(),
    {
        match self {
            Liugcr4Field::CLKSEL => Field { offset: 0, width: 4 },
        }
    }
}

/// The fields of CSR, the clock and select register.
#[allow(non_camel_case_types)]
#[derive(Clone, Copy, Debug, PartialEq, Eq, Structural)]
pub enum CsrField {
    LCV_Insert,
    Set_T1_Mode,
    Sync_All_Transmitters_to_8kHz,
    Clock_Loss_Detect,
    CSS,
}

impl CsrField {
    pub open spec fn layout(self) -> Field {
        match self {
            CsrField::LCV_Insert => Field { offset: 7, width: 1 },
            CsrField::Set_T1_Mode => Field { offset: 6, width: 1 },
            CsrField::Sync_All_Transmitters_to_8kHz => Field { offset: 5, width: 1 },
            CsrField::Clock_Loss_Detect => Field { offset: 3, width: 1 },
            CsrField::CSS => Field { offset: 0, width: 2 },
        }
    }

    pub fn field(self) -> (r: Field)
        ensures
            r == self.layout(),
            r.wf(),
    {
        match self {
            CsrField::LCV_Insert => Field { offset: 7, width: 1 },
            CsrField::Set_T1_Mode => Field { offset: 6, width: 1 },
            CsrField::Sync_All_Transmitters_to_8kHz => Field { offset: 5, width: 1 },
            CsrField::Clock_Loss_Detect => Field { offset: 3, width: 1 },
            CsrField::CSS => Field { offset: 0, width: 2 },
        }
    }
}

/// The fields of LICR, the line interface control register.
#[allow(non_camel_case_types)]
#[derive(Clone, Copy, Debug, PartialEq, Eq, Structural)]
pub enum LicrField {
    FORCE_LOS,
    Single_Rail_Mode,
    LB,
    Encode_B8ZS,
    Decode_AMI_B8ZS,
}

impl LicrField {
    pub open spec fn layout(self) -> Field {
        match self {
            LicrField::FORCE_LOS => Field { offset: 7, width: 1 },
            LicrField::Single_Rail_Mode => Field { offset: 6, width: 1 },
            LicrField::LB => Field { offset: 4, width: 2 },
            LicrField::Encode_B8ZS => Field { offset: 3, width: 1 },
            LicrField::Decode_AMI_B8ZS => Field { offset: 2, width: 1 },
        }
    }

    pub fn field(self) -> (r: Field)
        ensures
            r == self.layout(),
            r.wf(),
    {
        match self {
            LicrField::FORCE_LOS => Field { offset: 7, width: 1 },
            LicrField::Single_Rail_Mode => Field { offset: 6, width: 1 },
            LicrField::LB => Field { offset: 4, width: 2 },
            LicrField::Encode_B8ZS => Field { offset: 3, width: 1 },
            LicrField::Decode_AMI_B8ZS => Field { offset: 2, width: 1 },
        }
    }
}

/// The fields of FSR, the framing select register.
#[allow(non_camel_case_types)]
#[derive(Clone, Copy, Debug, PartialEq, Eq, Structural)]
pub enum FsrField {
    Signaling_update_on_Superframe_Boundaries,
    Force_CRC_Errors,
    J1_MODE,
    ONEONLY,
    FASTSYNC,
    FSI,
}

impl FsrField {
    pub open spec fn layout(self) -> Field {
        match self {
            FsrField::Signaling_update_on_Superframe_Boundaries => Field { offset: 7, width: 1 },
            FsrField::Force_CRC_Errors => Field { offset: 6, width: 1 },
            FsrField::J1_MODE => Field { offset: 5, width: 1 },
            FsrField::ONEONLY => Field { offset: 4, width: 1 },
            FsrField::FASTSYNC => Field { offset: 3, width: 1 },
            FsrField::FSI => Field { offset: 0, width: 3 },
        }
    }

    pub fn field(self) -> (r: Field)
        ensures
            r == self.layout(),
            r.wf(),
    {
        match self {
            FsrField::Signaling_update_on_Superframe_Boundaries => Field { offset: 7, width: 1 },
            FsrField::Force_CRC_Errors => Field { offset: 6, width: 1 },
            FsrField::J1_MODE => Field { offset: 5, width: 1 },
            FsrField::ONEONLY => Field { offset: 4, width: 1 },
            FsrField::FASTSYNC => Field { offset: 3, width: 1 },
            FsrField::FSI => Field { offset: 0, width: 3 },
        }
    }
}

/// The fields of SMR, the synchronization MUX register.
#[allow(non_camel_case_types)]
#[derive(Clone, Copy, Debug, PartialEq, Eq, Structural)]
pub enum SmrField {
    MFRAMEALIGN,
    MSYNC,
    Transmit_Frame_Sync_Select,
    CRC6_Bits_Source_Select,
    Framing_Bits_Source_Select,
}

impl SmrField {
    pub open spec fn layout(self) -> Field {
        match self {
            SmrField::MFRAMEALIGN => Field { offset: 7, width: 1 },
            SmrField::MSYNC => Field { offset: 6, width: 1 },
            SmrField::Transmit_Frame_Sync_Select => Field { offset: 5, width: 1 },
            SmrField::CRC6_Bits_Source_Select => Field { offset: 1, width: 1 },
            SmrField::Framing_Bits_Source_Select => Field { offset: 0, width: 1 },
        }
    }

    pub fn field(self) -> (r: Field)
        ensures
            r == self.layout(),
            r.wf(),
    {
        match self {
            SmrField::MFRAMEALIGN => Field { offset: 7, width: 1 },
            SmrField::MSYNC => Field { offset: 6, width: 1 },
            SmrField::Transmit_Frame_Sync_Select => Field { offset: 5, width: 1 },
            SmrField::CRC6_Bits_Source_Select => Field { offset: 1, width: 1 },
            SmrField::Framing_Bits_Source_Select => Field { offset: 0, width: 1 },
        }
    }
}

/// The fields of DLCR1, the data link control register 1 (HDLC1, the facility data link).
#[allow(non_camel_case_types)]
#[derive(Clone, Copy, Debug, PartialEq, Eq, Structural)]
pub enum Dlcr1Field {
    SLC96_Data_Link_Enable,
    MOS_ABORT_Disable,
    Rx_FCS_DIS,
    AutoRx,
    Tx_ABORT,
    Tx_IDLE,
    Tx_FCS_EN,
    MOS_BOSn,
}

impl Dlcr1Field {
    pub open spec fn layout(self) -> Field {
        match self {
            Dlcr1Field::SLC96_Data_Link_Enable => Field { offset: 7, width: 1 },
            Dlcr1Field::MOS_ABORT_Disable => Field { offset: 6, width: 1 },
            Dlcr1Field::Rx_FCS_DIS => Field { offset: 5, width: 1 },
            Dlcr1Field::AutoRx => Field { offset: 4, width: 1 },
            Dlcr1Field::Tx_ABORT => Field { offset: 3, width: 1 },
            Dlcr1Field::Tx_IDLE => Field { offset: 2, width: 1 },
            Dlcr1Field::Tx_FCS_EN => Field { offset: 1, width: 1 },
            Dlcr1Field::MOS_BOSn => Field { offset: 0, width: 1 },
        }
    }

    pub fn field(self) -> (r: Field)
        ensures
            r == self.layout(),
            r.wf(),
    {
        match self {
            Dlcr1Field::SLC96_Data_Link_Enable => Field { offset: 7, width: 1 },
            Dlcr1Field::MOS_ABORT_Disable => Field { offset: 6, width: 1 },
            Dlcr1Field::Rx_FCS_DIS => Field { offset: 5, width: 1 },
            Dlcr1Field::AutoRx => Field { offset: 4, width: 1 },
            Dlcr1Field::Tx_ABORT => Field { offset: 3, width: 1 },
            Dlcr1Field::Tx_IDLE => Field { offset: 2, width: 1 },
            Dlcr1Field::Tx_FCS_EN => Field { offset: 1, width: 1 },
            Dlcr1Field::MOS_BOSn => Field { offset: 0, width: 1 },
        }
    }
}

/// The fields of FCR, the framing control register.
#[allow(non_camel_case_types)]
#[derive(Clone, Copy, Debug, PartialEq, Eq, Structural)]
pub enum FcrField {
    Reframe,
    Framing_with_CRC_Checking,
    LOF_Tolerance,
    LOF_Range,
}

impl FcrField {
    pub open spec fn layout(self) -> Field {
        match self {
            FcrField::Reframe => Field { offset: 7, width: 1 },
            FcrField::Framing_with_CRC_Checking => Field { offset: 6, width: 1 },
            FcrField::LOF_Tolerance => Field { offset: 3, width: 3 },
            FcrField::LOF_Range => Field { offset: 0, width: 3 },
        }
    }

    pub fn field(self) -> (r: Field)
        ensures
            r == self.layout(),
            r.wf(),
    {
        match self {
            FcrField::Reframe => Field { offset: 7, width: 1 },
            FcrField::Framing_with_CRC_Checking => Field { offset: 6, width: 1 },
            FcrField::LOF_Tolerance => Field { offset: 3, width: 3 },
            FcrField::LOF_Range => Field { offset: 0, width: 3 },
        }
    }
}

/// The fields of PRCR, the performance report control register.
#[allow(non_camel_case_types)]
#[derive(Clone, Copy, Debug, PartialEq, Eq, Structural)]
pub enum PrcrField {
    LBO_ADJ_ENB,
    FAR_END,
    NPRM,
    C_R_Bit,
    APCR,
}

impl PrcrField {
    pub open spec fn layout(self) -> Field {
        match self {
            PrcrField::LBO_ADJ_ENB => Field { offset: 7, width: 1 },
            PrcrField::FAR_END => Field { offset: 6, width: 1 },
            PrcrField::NPRM => Field { offset: 4, width: 2 },
            PrcrField::C_R_Bit => Field { offset: 3, width: 1 },
            PrcrField::APCR => Field { offset: 0, width: 2 },
        }
    }

    pub fn field(self) -> (r: Field)
        ensures
            r == self.layout(),
            r.wf(),
    {
        match self {
            PrcrField::LBO_ADJ_ENB => Field { offset: 7, width: 1 },
            PrcrField::FAR_END => Field { offset: 6, width: 1 },
            PrcrField::NPRM => Field { offset: 4, width: 2 },
            PrcrField::C_R_Bit => Field { offset: 3, width: 1 },
            PrcrField::APCR => Field { offset: 0, width: 2 },
        }
    }
}

/// The fields of SBCR, the slip buffer control register.
#[allow(non_camel_case_types)]
#[derive(Clone, Copy, Debug, PartialEq, Eq, Structural)]
pub enum SbcrField {
    TxSB_ISFIFO,
    SB_FORCESF,
    SB_SFENB,
    SB_SDIR,
    SB_ENB,
}

impl SbcrField {
    pub open spec fn layout(self) -> Field {
        match self {
            SbcrField::TxSB_ISFIFO => Field { offset: 7, width: 1 },
            SbcrField::SB_FORCESF => Field { offset: 4, width: 1 },
            SbcrField::SB_SFENB => Field { offset: 3, width: 1 },
            SbcrField::SB_SDIR => Field { offset: 2, width: 1 },
            SbcrField::SB_ENB => Field { offset: 0, width: 2 },
        }
    }

    pub fn field(self) -> (r: Field)
        ensures
            r == self.layout(),
            r.wf(),
    {
        match self {
            SbcrField::TxSB_ISFIFO => Field { offset: 7, width: 1 },
            SbcrField::SB_FORCESF => Field { offset: 4, width: 1 },
            SbcrField::SB_SFENB => Field { offset: 3, width: 1 },
            SbcrField::SB_SDIR => Field { offset: 2, width: 1 },
            SbcrField::SB_ENB => Field { offset: 0, width: 2 },
        }
    }
}

/// The fields of TICR, the transmit interface control register.
#[allow(non_camel_case_types)]
#[derive(Clone, Copy, Debug, PartialEq, Eq, Structural)]
pub enum TicrField {
    TxSyncFrD,
    TxPLClkEnb_TxSync_Is_Low,
    TxFr1544,
    TxICLKINV,
    TxIMODE,
}

impl TicrField {
    pub open spec fn layout(self) -> Field {
        match self {
            TicrField::TxSyncFrD => Field { offset: 7, width: 1 },
            TicrField::TxPLClkEnb_TxSync_Is_Low => Field { offset: 5, width: 1 },
            TicrField::TxFr1544 => Field { offset: 4, width: 1 },
            TicrField::TxICLKINV => Field { offset: 3, width: 1 },
            TicrField::TxIMODE => Field { offset: 0, width: 2 },
        }
    }

    pub fn field(self) -> (r: Field)
        ensures
            r == self.layout(),
            r.wf(),
    {
        match self {
            TicrField::TxSyncFrD => Field { offset: 7, width: 1 },
            TicrField::TxPLClkEnb_TxSync_Is_Low => Field { offset: 5, width: 1 },
            TicrField::TxFr1544 => Field { offset: 4, width: 1 },
            TicrField::TxICLKINV => Field { offset: 3, width: 1 },
            TicrField::TxIMODE => Field { offset: 0, width: 2 },
        }
    }
}

/// The fields of RICR, the receive interface control register.
#[allow(non_camel_case_types)]
#[derive(Clone, Copy, Debug, PartialEq, Eq, Structural)]
pub enum RicrField {
    RxSyncFrD,
    RxPLClkEnb_RxSync_Is_Low,
    RxFr1544,
    RxICLKINV,
    RxMUXEN,
    RxIMODE,
}

impl RicrField {
    pub open spec fn layout(self) -> Field {
        match self {
            RicrField::RxSyncFrD => Field { offset: 7, width: 1 },
            RicrField::RxPLClkEnb_RxSync_Is_Low => Field { offset: 5, width: 1 },
            RicrField::RxFr1544 => Field { offset: 4, width: 1 },
            RicrField::RxICLKINV => Field { offset: 3, width: 1 },
            RicrField::RxMUXEN => Field { offset: 2, width: 1 },
            RicrField::RxIMODE => Field { offset: 0, width: 2 },
        }
    }

    pub fn field(self) -> (r: Field)
        ensures
            r == self.layout(),
            r.wf(),
    {
        match self {
            RicrField::RxSyncFrD => Field { offset: 7, width: 1 },
            RicrField::RxPLClkEnb_RxSync_Is_Low => Field { offset: 5, width: 1 },
            RicrField::RxFr1544 => Field { offset: 4, width: 1 },
            RicrField::RxICLKINV => Field { offset: 3, width: 1 },
            RicrField::RxMUXEN => Field { offset: 2, width: 1 },
            RicrField::RxIMODE => Field { offset: 0, width: 2 },
        }
    }
}

/// The fields of TSPRMCR, the transmit performance report message control register.
#[allow(non_camel_case_types)]
#[derive(Clone, Copy, Debug, PartialEq, Eq, Structural)]
pub enum TsprmcrField {
    FC_Bit,
    PA_Bit,
    U1_Bit,
    U2_Bit,
    R_Bit,
}

impl TsprmcrField {
    pub open spec fn layout(self) -> Field {
        match self {
            TsprmcrField::FC_Bit => Field { offset: 7, width: 1 },
            TsprmcrField::PA_Bit => Field { offset: 6, width: 1 },
            TsprmcrField::U1_Bit => Field { offset: 5, width: 1 },
            TsprmcrField::U2_Bit => Field { offset: 4, width: 1 },
            TsprmcrField::R_Bit => Field { offset: 0, width: 4 },
        }
    }

    pub fn field(self) -> (r: Field)
        ensures
            r == self.layout(),
            r.wf(),
    {
        match self {
            TsprmcrField::FC_Bit => Field { offset: 7, width: 1 },
            TsprmcrField::PA_Bit => Field { offset: 6, width: 1 },
            TsprmcrField::U1_Bit => Field { offset: 5, width: 1 },
            TsprmcrField::U2_Bit => Field { offset: 4, width: 1 },
            TsprmcrField::R_Bit => Field { offset: 0, width: 4 },
        }
    }
}

/// The fields of LIUCCR0, the LIU channel control register 0.
#[allow(non_camel_case_types)]
#[derive(Clone, Copy, Debug, PartialEq, Eq, Structural)]
pub enum Liuccr0Field {
    QRSS_n_PRBS_n,
    PRBS_Rx_n_PRBS_Tx_n,
    RXON_n,
    EQC,
}

impl Liuccr0Field {
    pub open spec fn layout(self) -> Field {
        match self {
            Liuccr0Field::QRSS_n_PRBS_n => Field { offset: 7, width: 1 },
            Liuccr0Field::PRBS_Rx_n_PRBS_Tx_n => Field { offset: 6, width: 1 },
            Liuccr0Field::RXON_n => Field { offset: 5, width: 1 },
            Liuccr0Field::EQC => Field { offset: 0, width: 5 },
        }
    }

    pub fn field(self) -> (r: Field)
        ensures
            r == self.layout(),
            r.wf(),
    {
        match self {
            Liuccr0Field::QRSS_n_PRBS_n => Field { offset: 7, width: 1 },
            Liuccr0Field::PRBS_Rx_n_PRBS_Tx_n => Field { offset: 6, width: 1 },
            Liuccr0Field::RXON_n => Field { offset: 5, width: 1 },
            Liuccr0Field::EQC => Field { offset: 0, width: 5 },
        }
    }
}

/// The fields of LIUCCR1, the LIU channel control register 1.
#[allow(non_camel_case_types)]
#[derive(Clone, Copy, Debug, PartialEq, Eq, Structural)]
pub enum Liuccr1Field {
    RXTSEL_n,
    TXTSEL_n,
    TERSEL,
    RxJASEL_n,
    TxJASEL_n,
    JABW_n,
    FIFOS_n,
}

impl Liuccr1Field {
    pub open spec fn layout(self) -> Field {
        match self {
            Liuccr1Field::RXTSEL_n => Field { offset: 7, width: 1 },
            Liuccr1Field::TXTSEL_n => Field { offset: 6, width: 1 },
            Liuccr1Field::TERSEL => Field { offset: 4, width: 2 },
            Liuccr1Field::RxJASEL_n => Field { offset: 3, width: 1 },
            Liuccr1Field::TxJASEL_n => Field { offset: 2, width: 1 },
            Liuccr1Field::JABW_n => Field { offset: 1, width: 1 },
            Liuccr1Field::FIFOS_n => Field { offset: 0, width: 1 },
        }
    }

    pub fn field(self) -> (r: Field)
        ensures
            r == self.layout(),
            r.wf(),
    {
        match self {
            Liuccr1Field::RXTSEL_n => Field { offset: 7, width: 1 },
            Liuccr1Field::TXTSEL_n => Field { offset: 6, width: 1 },
            Liuccr1Field::TERSEL => Field { offset: 4, width: 2 },
            Liuccr1Field::RxJASEL_n => Field { offset: 3, width: 1 },
            Liuccr1Field::TxJASEL_n => Field { offset: 2, width: 1 },
            Liuccr1Field::JABW_n => Field { offset: 1, width: 1 },
            Liuccr1Field::FIFOS_n => Field { offset: 0, width: 1 },
        }
    }
}

/// The fields of LIUCCR2, the LIU channel control register 2.
#[allow(non_camel_case_types)]
#[derive(Clone, Copy, Debug, PartialEq, Eq, Structural)]
pub enum Liuccr2Field {
    INVQRSS_n,
    TXTEST,
    TXON_n,
    LOOP2_n,
}

impl Liuccr2Field {
    pub open spec fn layout(self) -> Field {
        match self {
            Liuccr2Field::INVQRSS_n => Field { offset: 7, width: 1 },
            Liuccr2Field::TXTEST => Field { offset: 4, width: 3 },
            Liuccr2Field::TXON_n => Field { offset: 3, width: 1 },
            Liuccr2Field::LOOP2_n => Field { offset: 0, width: 2 },
        }
    }

    pub fn field(self) -> (r: Field)
        ensures
            r == self.layout(),
            r.wf(),
    {
        match self {
            Liuccr2Field::INVQRSS_n => Field { offset: 7, width: 1 },
            Liuccr2Field::TXTEST => Field { offset: 4, width: 3 },
            Liuccr2Field::TXON_n => Field { offset: 3, width: 1 },
            Liuccr2Field::LOOP2_n => Field { offset: 0, width: 2 },
        }
    }
}

/// The fields of TCCR, the transmit channel control register.
#[allow(non_camel_case_types)]
#[derive(Clone, Copy, Debug, PartialEq, Eq, Structural)]
pub enum TccrField {
    LAPDcntl,
    TxZERO,
    TxCOND,
}

impl TccrField {
    pub open spec fn layout(self) -> Field {
        match self {
            TccrField::LAPDcntl => Field { offset: 6, width: 2 },
            TccrField::TxZERO => Field { offset: 4, width: 2 },
            TccrField::TxCOND => Field { offset: 0, width: 4 },
        }
    }

    pub fn field(self) -> (r: Field)
        ensures
            r == self.layout(),
            r.wf(),
    {
        match self {
            TccrField::LAPDcntl => Field { offset: 6, width: 2 },
            TccrField::TxZERO => Field { offset: 4, width: 2 },
            TccrField::TxCOND => Field { offset: 0, width: 4 },
        }
    }
}

/// The fields of TUCR, the transmit user code register.
#[allow(non_camel_case_types)]
#[derive(Clone, Copy, Debug, PartialEq, Eq, Structural)]
pub enum TucrField {
    TUCR,
}

impl TucrField {
    pub open spec fn layout(self) -> Field {
        match self {
            TucrField::TUCR => Field { offset: 0, width: 8 },
        }
    }

    pub fn field(self) -> (r: Field)
        ensures
            r == self.layout(),
            r.wf(),
    {
        match self {
            TucrField::TUCR => Field { offset: 0, width: 8 },
        }
    }
}

/// The fields of TSCR, the transmit signaling control register.
#[allow(non_camel_case_types)]
#[derive(Clone, Copy, Debug, PartialEq, Eq, Structural)]
pub enum TscrField {
    A_x,
    B_y,
    C_x,
    D_x,
    Rob_Enb,
    TxSIGSRC,
}

impl TscrField {
    pub open spec fn layout(self) -> Field {
        match self {
            TscrField::A_x => Field { offset: 7, width: 1 },
            TscrField::B_y => Field { offset: 6, width: 1 },
            TscrField::C_x => Field { offset: 5, width: 1 },
            TscrField::D_x => Field { offset: 4, width: 1 },
            TscrField::Rob_Enb => Field { offset: 3, width: 1 },
            TscrField::TxSIGSRC => Field { offset: 0, width: 2 },
        }
    }

    pub fn field(self) -> (r: Field)
        ensures
            r == self.layout(),
            r.wf(),
    {
        match self {
            TscrField::A_x => Field { offset: 7, width: 1 },
            TscrField::B_y => Field { offset: 6, width: 1 },
            TscrField::C_x => Field { offset: 5, width: 1 },
            TscrField::D_x => Field { offset: 4, width: 1 },
            TscrField::Rob_Enb => Field { offset: 3, width: 1 },
            TscrField::TxSIGSRC => Field { offset: 0, width: 2 },
        }
    }
}

/// The fields of RCCR, the receive channel control register.
#[allow(non_camel_case_types)]
#[derive(Clone, Copy, Debug, PartialEq, Eq, Structural)]
pub enum RccrField {
    LAPDcntl,
    RxZERO,
    RxCOND,
}

impl RccrField {
    pub open spec fn layout(self) -> Field {
        match self {
            RccrField::LAPDcntl => Field { offset: 6, width: 2 },
            RccrField::RxZERO => Field { offset: 4, width: 2 },
            RccrField::RxCOND => Field { offset: 0, width: 4 },
        }
    }

    pub fn field(self) -> (r: Field)
        ensures
            r == self.layout(),
            r.wf(),
    {
        match self {
            RccrField::LAPDcntl => Field { offset: 6, width: 2 },
            RccrField::RxZERO => Field { offset: 4, width: 2 },
            RccrField::RxCOND => Field { offset: 0, width: 4 },
        }
    }
}

/// The fields of RUCR, the receive user code register.
#[allow(non_camel_case_types)]
#[derive(Clone, Copy, Debug, PartialEq, Eq, Structural)]
pub enum RucrField {
    RxUSER,
}

impl RucrField {
    pub open spec fn layout(self) -> Field {
        match self {
            RucrField::RxUSER => Field { offset: 0, width: 8 },
        }
    }

    pub fn field(self) -> (r: Field)
        ensures
            r == self.layout(),
            r.wf(),
    {
        match self {
            RucrField::RxUSER => Field { offset: 0, width: 8 },
        }
    }
}

/// The fields of RSCR, the receive signaling control register.
#[allow(non_camel_case_types)]
#[derive(Clone, Copy, Debug, PartialEq, Eq, Structural)]
pub enum RscrField {
    SIGC_ENB,
    OH_ENB,
    DEB_ENB,
    RxSIGC,
    RxSIGE,
}

impl RscrField {
    pub open spec fn layout(self) -> Field {
        match self {
            RscrField::SIGC_ENB => Field { offset: 7, width: 1 },
            RscrField::OH_ENB => Field { offset: 6, width: 1 },
            RscrField::DEB_ENB => Field { offset: 5, width: 1 },
            RscrField::RxSIGC => Field { offset: 2, width: 2 },
            RscrField::RxSIGE => Field { offset: 0, width: 2 },
        }
    }

    pub fn field(self) -> (r: Field)
        ensures
            r == self.layout(),
            r.wf(),
    {
        match self {
            RscrField::SIGC_ENB => Field { offset: 7, width: 1 },
            RscrField::OH_ENB => Field { offset: 6, width: 1 },
            RscrField::DEB_ENB => Field { offset: 5, width: 1 },
            RscrField::RxSIGC => Field { offset: 2, width: 2 },
            RscrField::RxSIGE => Field { offset: 0, width: 2 },
        }
    }
}

/// The fields of RSSR, the receive signaling status register.
#[allow(non_camel_case_types)]
#[derive(Clone, Copy, Debug, PartialEq, Eq, Structural)]
pub enum RssrField {
    SIG_16A_4A_2A,
    SIG_16B_4B_2A,
    SIG_16C_4A_2A,
    SIG_16D_4B_2A,
}

impl RssrField {
    pub open spec fn layout(self) -> Field {
        match self {
            RssrField::SIG_16A_4A_2A => Field { offset: 7, width: 1 },
            RssrField::SIG_16B_4B_2A => Field { offset: 6, width: 1 },
            RssrField::SIG_16C_4A_2A => Field { offset: 5, width: 1 },
            RssrField::SIG_16D_4B_2A => Field { offset: 4, width: 1 },
        }
    }

    pub fn field(self) -> (r: Field)
        ensures
            r == self.layout(),
            r.wf(),
    {
        match self {
            RssrField::SIG_16A_4A_2A => Field { offset: 7, width: 1 },
            RssrField::SIG_16B_4B_2A => Field { offset: 6, width: 1 },
            RssrField::SIG_16C_4A_2A => Field { offset: 5, width: 1 },
            RssrField::SIG_16D_4B_2A => Field { offset: 4, width: 1 },
        }
    }
}

/// The master clock frequency (LIUGCR4.CLKSEL).
#[allow(non_camel_case_types)]
#[derive(Clone, Copy, Debug, PartialEq, Eq, Structural)]
pub enum ClockSelect {
    M2_048,
    M1_544,
    M8_192,
    M16_384,
    M4_096,
    M12_352,
    M24_704,
    M32_768,
}

impl ClockSelect {
    /// The field value that selects this setting.
    pub open spec fn code(self) -> u8 {
        match self {
            ClockSelect::M2_048 => 0x0,
            ClockSelect::M1_544 => 0x1,
            ClockSelect::M8_192 => 0x2,
            ClockSelect::M16_384 => 0x3,
            ClockSelect::M4_096 => 0x4,
            ClockSelect::M12_352 => 0x5,
            ClockSelect::M24_704 => 0x6,
            ClockSelect::M32_768 => 0x7,
        }
    }

    pub fn value(self) -> (r: u8)
        ensures
            r == self.code(),
            r < 16,
    {
        match self {
            ClockSelect::M2_048 => 0x0,
            ClockSelect::M1_544 => 0x1,
            ClockSelect::M8_192 => 0x2,
            ClockSelect::M16_384 => 0x3,
            ClockSelect::M4_096 => 0x4,
            ClockSelect::M12_352 => 0x5,
            ClockSelect::M24_704 => 0x6,
            ClockSelect::M32_768 => 0x7,
        }
    }
}

/// The transmit clock source (CSR.CSS).
#[allow(non_camel_case_types)]
#[derive(Clone, Copy, Debug, PartialEq, Eq, Structural)]
pub enum ClockSource {
    Loop,
    Local,
    External,
}

impl ClockSource {
    /// The field value that selects this setting.
    pub open spec fn code(self) -> u8 {
        match self {
            ClockSource::Loop => 0x0,
            ClockSource::Local => 0x1,
            ClockSource::External => 0x2,
        }
    }

    pub fn value(self) -> (r: u8)
        ensures
            r == self.code(),
            r < 4,
    {
        match self {
            ClockSource::Loop => 0x0,
            ClockSource::Local => 0x1,
            ClockSource::External => 0x2,
        }
    }
}

/// The framer loopback mode (LICR.LB).
#[allow(non_camel_case_types)]
#[derive(Clone, Copy, Debug, PartialEq, Eq, Structural)]
pub enum FramerLoopback {
    No,
    Local,
    Remote,
    Payload,
}

impl FramerLoopback {
    /// The field value that selects this setting.
    pub open spec fn code(self) -> u8 {
        match self {
            FramerLoopback::No => 0x0,
            FramerLoopback::Local => 0x1,
            FramerLoopback::Remote => 0x2,
            FramerLoopback::Payload => 0x3,
        }
    }

    pub fn value(self) -> (r: u8)
        ensures
            r == self.code(),
            r < 4,
    {
        match self {
            FramerLoopback::No => 0x0,
            FramerLoopback::Local => 0x1,
            FramerLoopback::Remote => 0x2,
            FramerLoopback::Payload => 0x3,
        }
    }
}

/// The T1 framing format (FSR.FSI).
#[allow(non_camel_case_types)]
#[derive(Clone, Copy, Debug, PartialEq, Eq, Structural)]
pub enum T1Framing {
    ExtendedSuperFrame,
    SLC96,
    N,
    SuperFrame,
    T1DM,
}

impl T1Framing {
    /// The field value that selects this setting.
    pub open spec fn code(self) -> u8 {
        match self {
            T1Framing::ExtendedSuperFrame => 0x0,
            T1Framing::SLC96 => 0x1,
            T1Framing::N => 0x2,
            T1Framing::SuperFrame => 0x4,
            T1Framing::T1DM => 0x5,
        }
    }

    pub fn value(self) -> (r: u8)
        ensures
            r == self.code(),
            r < 8,
    {
        match self {
            T1Framing::ExtendedSuperFrame => 0x0,
            T1Framing::SLC96 => 0x1,
            T1Framing::N => 0x2,
            T1Framing::SuperFrame => 0x4,
            T1Framing::T1DM => 0x5,
        }
    }
}

/// The automatic performance report rate (PRCR.APCR).
#[allow(non_camel_case_types)]
#[derive(Clone, Copy, Debug, PartialEq, Eq, Structural)]
pub enum AutomaticPerformanceReport {
    Disabled,
    EverySecond,
    SingleTransmission,
}

impl AutomaticPerformanceReport {
    /// The field value that selects this setting.
    pub open spec fn code(self) -> u8 {
        match self {
            AutomaticPerformanceReport::Disabled => 0x0,
            AutomaticPerformanceReport::EverySecond => 0x1,
            AutomaticPerformanceReport::SingleTransmission => 0x2,
        }
    }

    pub fn value(self) -> (r: u8)
        ensures
            r == self.code(),
            r < 4,
    {
        match self {
            AutomaticPerformanceReport::Disabled => 0x0,
            AutomaticPerformanceReport::EverySecond => 0x1,
            AutomaticPerformanceReport::SingleTransmission => 0x2,
        }
    }
}

/// The receive slip buffer mode (SBCR.SB_ENB).
#[allow(non_camel_case_types)]
#[derive(Clone, Copy, Debug, PartialEq, Eq, Structural)]
pub enum ReceiveSlipBuffer {
    Bypass,
    SlipBuffer,
    Fifo,
}

impl ReceiveSlipBuffer {
    /// The field value that selects this setting.
    pub open spec fn code(self) -> u8 {
        match self {
            ReceiveSlipBuffer::Bypass => 0x0,
            ReceiveSlipBuffer::SlipBuffer => 0x1,
            ReceiveSlipBuffer::Fifo => 0x2,
        }
    }

    pub fn value(self) -> (r: u8)
        ensures
            r == self.code(),
            r < 4,
    {
        match self {
            ReceiveSlipBuffer::Bypass => 0x0,
            ReceiveSlipBuffer::SlipBuffer => 0x1,
            ReceiveSlipBuffer::Fifo => 0x2,
        }
    }
}

/// The test pattern kind (LIUCCR0.QRSS_n_PRBS_n).
#[allow(non_camel_case_types)]
#[derive(Clone, Copy, Debug, PartialEq, Eq, Structural)]
pub enum PRBSPattern {
    PRBS,
    QRSS,
}

impl PRBSPattern {
    /// The field value that selects this setting.
    pub open spec fn code(self) -> u8 {
        match self {
            PRBSPattern::PRBS => 0x0,
            PRBSPattern::QRSS => 0x1,
        }
    }

    pub fn value(self) -> (r: u8)
        ensures
            r == self.code(),
            r < 2,
    {
        match self {
            PRBSPattern::PRBS => 0x0,
            PRBSPattern::QRSS => 0x1,
        }
    }
}

/// The test pattern direction (LIUCCR0.PRBS_Rx_n_PRBS_Tx_n).
#[allow(non_camel_case_types)]
#[derive(Clone, Copy, Debug, PartialEq, Eq, Structural)]
pub enum PRBSDestination {
    TTIP_TRING,
    RPOS,
}

impl PRBSDestination {
    /// The field value that selects this setting.
    pub open spec fn code(self) -> u8 {
        match self {
            PRBSDestination::TTIP_TRING => 0x0,
            PRBSDestination::RPOS => 0x1,
        }
    }

    pub fn value(self) -> (r: u8)
        ensures
            r == self.code(),
            r < 2,
    {
        match self {
            PRBSDestination::TTIP_TRING => 0x0,
            PRBSDestination::RPOS => 0x1,
        }
    }
}

/// The line termination (LIUCCR1.RXTSEL_n, TXTSEL_n).
#[allow(non_camel_case_types)]
#[derive(Clone, Copy, Debug, PartialEq, Eq, Structural)]
pub enum Termination {
    External,
    Internal,
}

impl Termination {
    /// The field value that selects this setting.
    pub open spec fn code(self) -> u8 {
        match self {
            Termination::External => 0x0,
            Termination::Internal => 0x1,
        }
    }

    pub fn value(self) -> (r: u8)
        ensures
            r == self.code(),
            r < 2,
    {
        match self {
            Termination::External => 0x0,
            Termination::Internal => 0x1,
        }
    }
}

/// The line impedance (LIUCCR1.TERSEL).
#[allow(non_camel_case_types)]
#[derive(Clone, Copy, Debug, PartialEq, Eq, Structural)]
pub enum TerminationImpedance {
    Ohms100,
    Ohms110,
    Ohms75,
    Ohms120,
}

impl TerminationImpedance {
    /// The field value that selects this setting.
    pub open spec fn code(self) -> u8 {
        match self {
            TerminationImpedance::Ohms100 => 0x0,
            TerminationImpedance::Ohms110 => 0x1,
            TerminationImpedance::Ohms75 => 0x2,
            TerminationImpedance::Ohms120 => 0x3,
        }
    }

    pub fn value(self) -> (r: u8)
        ensures
            r == self.code(),
            r < 4,
    {
        match self {
            TerminationImpedance::Ohms100 => 0x0,
            TerminationImpedance::Ohms110 => 0x1,
            TerminationImpedance::Ohms75 => 0x2,
            TerminationImpedance::Ohms120 => 0x3,
        }
    }
}

/// The transmit test pattern (LIUCCR2.TXTEST).
#[allow(non_camel_case_types)]
#[derive(Clone, Copy, Debug, PartialEq, Eq, Structural)]
pub enum TransmitTestPattern {
    Disabled,
    Tdqrss,
    Taos,
    Tluc,
    Tldc,
}

impl TransmitTestPattern {
    /// The field value that selects this setting.
    pub open spec fn code(self) -> u8 {
        match self {
            TransmitTestPattern::Disabled => 0x0,
            TransmitTestPattern::Tdqrss => 0x4,
            TransmitTestPattern::Taos => 0x5,
            TransmitTestPattern::Tluc => 0x6,
            TransmitTestPattern::Tldc => 0x7,
        }
    }

    pub fn value(self) -> (r: u8)
        ensures
            r == self.code(),
            r < 8,
    {
        match self {
            TransmitTestPattern::Disabled => 0x0,
            TransmitTestPattern::Tdqrss => 0x4,
            TransmitTestPattern::Taos => 0x5,
            TransmitTestPattern::Tluc => 0x6,
            TransmitTestPattern::Tldc => 0x7,
        }
    }
}

/// The LIU loopback mode (LIUCCR2.LOOP2_n).
#[allow(non_camel_case_types)]
#[derive(Clone, Copy, Debug, PartialEq, Eq, Structural)]
pub enum LIULoopback {
    Disabled,
    Analog,
    Remote,
    Digital,
}

impl LIULoopback {
    /// The field value that selects this setting.
    pub open spec fn code(self) -> u8 {
        match self {
            LIULoopback::Disabled => 0x0,
            LIULoopback::Analog => 0x1,
            LIULoopback::Remote => 0x2,
            LIULoopback::Digital => 0x3,
        }
    }

    pub fn value(self) -> (r: u8)
        ensures
            r == self.code(),
            r < 4,
    {
        match self {
            LIULoopback::Disabled => 0x0,
            LIULoopback::Analog => 0x1,
            LIULoopback::Remote => 0x2,
            LIULoopback::Digital => 0x3,
        }
    }
}

/// The transmit LAPD source (TCCR.LAPDcntl).
#[allow(non_camel_case_types)]
#[derive(Clone, Copy, Debug, PartialEq, Eq, Structural)]
pub enum TransmitLAPDSource {
    TSDLSR_TxDE,
    TxFDL,
    TSDLSR,
    TxDE,
}

impl TransmitLAPDSource {
    /// The field value that selects this setting.
    pub open spec fn code(self) -> u8 {
        match self {
            TransmitLAPDSource::TSDLSR_TxDE => 0x0,
            TransmitLAPDSource::TxFDL => 0x1,
            TransmitLAPDSource::TSDLSR => 0x2,
            TransmitLAPDSource::TxDE => 0x3,
        }
    }

    pub fn value(self) -> (r: u8)
        ensures
            r == self.code(),
            r < 4,
    {
        match self {
            TransmitLAPDSource::TSDLSR_TxDE => 0x0,
            TransmitLAPDSource::TxFDL => 0x1,
            TransmitLAPDSource::TSDLSR => 0x2,
            TransmitLAPDSource::TxDE => 0x3,
        }
    }
}

/// The receive LAPD source (RCCR.LAPDcntl).
#[allow(non_camel_case_types)]
#[derive(Clone, Copy, Debug, PartialEq, Eq, Structural)]
pub enum ReceiveLAPDSource {
    RSDLSR_RxDE,
    RxFDL,
    RSDLSR,
    RxDE,
}

impl ReceiveLAPDSource {
    /// The field value that selects this setting.
    pub open spec fn code(self) -> u8 {
        match self {
            ReceiveLAPDSource::RSDLSR_RxDE => 0x0,
            ReceiveLAPDSource::RxFDL => 0x1,
            ReceiveLAPDSource::RSDLSR => 0x2,
            ReceiveLAPDSource::RxDE => 0x3,
        }
    }

    pub fn value(self) -> (r: u8)
        ensures
            r == self.code(),
            r < 4,
    {
        match self {
            ReceiveLAPDSource::RSDLSR_RxDE => 0x0,
            ReceiveLAPDSource::RxFDL => 0x1,
            ReceiveLAPDSource::RSDLSR => 0x2,
            ReceiveLAPDSource::RxDE => 0x3,
        }
    }
}

/// The zero code suppression (TCCR.TxZERO, RCCR.RxZERO).
#[allow(non_camel_case_types)]
#[derive(Clone, Copy, Debug, PartialEq, Eq, Structural)]
pub enum ZeroCodeSuppression {
    Disabled,
    GTE,
    Bell,
    JamBit8,
}

impl ZeroCodeSuppression {
    /// The field value that selects this setting.
    pub open spec fn code(self) -> u8 {
        match self {
            ZeroCodeSuppression::Disabled => 0x0,
            ZeroCodeSuppression::GTE => 0x1,
            ZeroCodeSuppression::Bell => 0x2,
            ZeroCodeSuppression::JamBit8 => 0x3,
        }
    }

    pub fn value(self) -> (r: u8)
        ensures
            r == self.code(),
            r < 4,
    {
        match self {
            ZeroCodeSuppression::Disabled => 0x0,
            ZeroCodeSuppression::GTE => 0x1,
            ZeroCodeSuppression::Bell => 0x2,
            ZeroCodeSuppression::JamBit8 => 0x3,
        }
    }
}

/// The channel conditioning (TCCR.TxCOND, RCCR.RxCOND).
#[allow(non_camel_case_types)]
#[derive(Clone, Copy, Debug, PartialEq, Eq, Structural)]
pub enum ChannelConditioning {
    Unchanged,
    InvertAll,
    InvertEven,
    InvertOdd,
    UserCode,
    BusyCode,
    VacantCode,
    BusyTs,
    MosAbort,
    PrbsOrQrss,
    DigitalMilliwatt,
}

impl ChannelConditioning {
    /// The field value that selects this setting.
    pub open spec fn code(self) -> u8 {
        match self {
            ChannelConditioning::Unchanged => 0x0,
            ChannelConditioning::InvertAll => 0x1,
            ChannelConditioning::InvertEven => 0x2,
            ChannelConditioning::InvertOdd => 0x3,
            ChannelConditioning::UserCode => 0x4,
            ChannelConditioning::BusyCode => 0x5,
            ChannelConditioning::VacantCode => 0x6,
            ChannelConditioning::BusyTs => 0x7,
            ChannelConditioning::MosAbort => 0x8,
            ChannelConditioning::PrbsOrQrss => 0x9,
            ChannelConditioning::DigitalMilliwatt => 0xa,
        }
    }

    pub fn value(self) -> (r: u8)
        ensures
            r == self.code(),
            r < 16,
    {
        match self {
            ChannelConditioning::Unchanged => 0x0,
            ChannelConditioning::InvertAll => 0x1,
            ChannelConditioning::InvertEven => 0x2,
            ChannelConditioning::InvertOdd => 0x3,
            ChannelConditioning::UserCode => 0x4,
            ChannelConditioning::BusyCode => 0x5,
            ChannelConditioning::VacantCode => 0x6,
            ChannelConditioning::BusyTs => 0x7,
            ChannelConditioning::MosAbort => 0x8,
            ChannelConditioning::PrbsOrQrss => 0x9,
            ChannelConditioning::DigitalMilliwatt => 0xa,
        }
    }
}

/// The transmit signaling source (TSCR.TxSIGSRC).
#[allow(non_camel_case_types)]
#[derive(Clone, Copy, Debug, PartialEq, Eq, Structural)]
pub enum ChannelSignalingSource {
    TSCR,
    TxSIG,
    TxSER,
    TxOH,
}

impl ChannelSignalingSource {
    /// The field value that selects this setting.
    pub open spec fn code(self) -> u8 {
        match self {
            ChannelSignalingSource::TSCR => 0x0,
            ChannelSignalingSource::TxSIG => 0x1,
            ChannelSignalingSource::TxSER => 0x2,
            ChannelSignalingSource::TxOH => 0x3,
        }
    }

    pub fn value(self) -> (r: u8)
        ensures
            r == self.code(),
            r < 4,
    {
        match self {
            ChannelSignalingSource::TSCR => 0x0,
            ChannelSignalingSource::TxSIG => 0x1,
            ChannelSignalingSource::TxSER => 0x2,
            ChannelSignalingSource::TxOH => 0x3,
        }
    }
}

/// The receive signaling substitution (RSCR.RxSIGC).
#[allow(non_camel_case_types)]
#[derive(Clone, Copy, Debug, PartialEq, Eq, Structural)]
pub enum ReceiveSignalingConditioning {
    SixteenCode_ABCD,
    FourCode_AB,
    TwoCode_A,
}

impl ReceiveSignalingConditioning {
    /// The field value that selects this setting.
    pub open spec fn code(self) -> u8 {
        match self {
            ReceiveSignalingConditioning::SixteenCode_ABCD => 0x0,
            ReceiveSignalingConditioning::FourCode_AB => 0x1,
            ReceiveSignalingConditioning::TwoCode_A => 0x2,
        }
    }

    pub fn value(self) -> (r: u8)
        ensures
            r == self.code(),
            r < 4,
    {
        match self {
            ReceiveSignalingConditioning::SixteenCode_ABCD => 0x0,
            ReceiveSignalingConditioning::FourCode_AB => 0x1,
            ReceiveSignalingConditioning::TwoCode_A => 0x2,
        }
    }
}

/// The receive signaling extraction (RSCR.RxSIGE).
#[allow(non_camel_case_types)]
#[derive(Clone, Copy, Debug, PartialEq, Eq, Structural)]
pub enum ReceiveSignalingExtraction {
    Disabled,
    TwoCode_A,
    FourCode_AB,
    SixteenCode_ABCD,
}

impl ReceiveSignalingExtraction {
    /// The field value that selects this setting.
    pub open spec fn code(self) -> u8 {
        match self {
            ReceiveSignalingExtraction::Disabled => 0x0,
            ReceiveSignalingExtraction::TwoCode_A => 0x1,
            ReceiveSignalingExtraction::FourCode_AB => 0x2,
            ReceiveSignalingExtraction::SixteenCode_ABCD => 0x3,
        }
    }

    pub fn value(self) -> (r: u8)
        ensures
            r == self.code(),
            r < 4,
    {
        match self {
            ReceiveSignalingExtraction::Disabled => 0x0,
            ReceiveSignalingExtraction::TwoCode_A => 0x1,
            ReceiveSignalingExtraction::FourCode_AB => 0x2,
            ReceiveSignalingExtraction::SixteenCode_ABCD => 0x3,
        }
    }
}

} // verus!
