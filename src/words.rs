use vstd::prelude::*;

use crate::field::RegisterWord;
use crate::registers::{
    AutomaticPerformanceReport, ChannelConditioning, ChannelSignalingSource, ClockSelect,
    ClockSource, FramerLoopback, LIULoopback, PRBSDestination, PRBSPattern, ReceiveLAPDSource,
    ReceiveSignalingConditioning, ReceiveSignalingExtraction, ReceiveSlipBuffer, T1Framing,
    Termination, TerminationImpedance, TransmitLAPDSource, TransmitTestPattern,
    ZeroCodeSuppression, CsrField, Dlcr1Field, FcrField, FsrField, LicrField, Liuccr0Field,
    Liuccr1Field, Liuccr2Field, Liugcr4Field, PrcrField, RccrField, RicrField, RscrField,
    RssrField, RucrField, SbcrField, SmrField, TccrField, TicrField, TscrField, TsprmcrField,
    TucrField, CSR, DLCR1, FCR, FSR, LICR, LIUCCR0, LIUCCR1, LIUCCR2, LIUGCR4, PRCR, RCCR, RICR,
    RSCR, RSSR, RUCR, SBCR, SMR, TCCR, TICR, TSCR, TSPRMCR, TUCR,
};

verus! {

/// The all-zero word with no field set, where every full write starts.
pub open spec fn blank() -> RegisterWord {
    RegisterWord { value: 0, touched: 0 }
}

/// The word programmed into CSR: its fields as this configuration sets them.
pub open spec fn csr_word() -> RegisterWord {
    blank()
        .set(CsrField::LCV_Insert.layout(), 0x0)
        .set(CsrField::Set_T1_Mode.layout(), 0x1)
        .set(CsrField::Sync_All_Transmitters_to_8kHz.layout(), 0x0)
        .set(CsrField::Clock_Loss_Detect.layout(), 0x1)
        .set(CsrField::CSS.layout(), ClockSource::External.code())
}

/// Builds the CSR word field by field.
pub fn build_csr() -> (r: RegisterWord)
    ensures
        r == csr_word(),
{
    RegisterWord::zero()
        .with(CsrField::LCV_Insert.field(), 0x0)
        .with(CsrField::Set_T1_Mode.field(), 0x1)
        .with(CsrField::Sync_All_Transmitters_to_8kHz.field(), 0x0)
        .with(CsrField::Clock_Loss_Detect.field(), 0x1)
        .with(CsrField::CSS.field(), ClockSource::External.value())
}

/// The word programmed into LICR: its fields as this configuration sets them.
pub open spec fn licr_word() -> RegisterWord {
    blank()
        .set(LicrField::FORCE_LOS.layout(), 0x0)
        .set(LicrField::Single_Rail_Mode.layout(), 0x0)
        .set(LicrField::LB.layout(), FramerLoopback::No.code())
        .set(LicrField::Encode_B8ZS.layout(), 0x0)
        .set(LicrField::Decode_AMI_B8ZS.layout(), 0x0)
}

/// Builds the LICR word field by field.
pub fn build_licr() -> (r: RegisterWord)
    ensures
        r == licr_word(),
{
    RegisterWord::zero()
        .with(LicrField::FORCE_LOS.field(), 0x0)
        .with(LicrField::Single_Rail_Mode.field(), 0x0)
        .with(LicrField::LB.field(), FramerLoopback::No.value())
        .with(LicrField::Encode_B8ZS.field(), 0x0)
        .with(LicrField::Decode_AMI_B8ZS.field(), 0x0)
}

/// The word programmed into FSR: its fields as this configuration sets them.
pub open spec fn fsr_word() -> RegisterWord {
    blank()
        .set(FsrField::Signaling_update_on_Superframe_Boundaries.layout(), 0x1)
        .set(FsrField::Force_CRC_Errors.layout(), 0x0)
        .set(FsrField::J1_MODE.layout(), 0x0)
        .set(FsrField::ONEONLY.layout(), 0x1)
        .set(FsrField::FASTSYNC.layout(), 0x0)
        .set(FsrField::FSI.layout(), T1Framing::ExtendedSuperFrame.code())
}

/// Builds the FSR word field by field.
pub fn build_fsr() -> (r: RegisterWord)
    ensures
        r == fsr_word(),
{
    RegisterWord::zero()
        .with(FsrField::Signaling_update_on_Superframe_Boundaries.field(), 0x1)
        .with(FsrField::Force_CRC_Errors.field(), 0x0)
        .with(FsrField::J1_MODE.field(), 0x0)
        .with(FsrField::ONEONLY.field(), 0x1)
        .with(FsrField::FASTSYNC.field(), 0x0)
        .with(FsrField::FSI.field(), T1Framing::ExtendedSuperFrame.value())
}

/// The word programmed into SMR: its fields as this configuration sets them.
pub open spec fn smr_word() -> RegisterWord {
    blank()
        .set(SmrField::MFRAMEALIGN.layout(), 0x0)
        .set(SmrField::MSYNC.layout(), 0x0)
        .set(SmrField::Transmit_Frame_Sync_Select.layout(), 0x0)
        .set(SmrField::CRC6_Bits_Source_Select.layout(), 0x0)
        .set(SmrField::Framing_Bits_Source_Select.layout(), 0x0)
}

/// Builds the SMR word field by field.
pub fn build_smr() -> (r: RegisterWord)
    ensures
        r == smr_word(),
{
    RegisterWord::zero()
        .with(SmrField::MFRAMEALIGN.field(), 0x0)
        .with(SmrField::MSYNC.field(), 0x0)
        .with(SmrField::Transmit_Frame_Sync_Select.field(), 0x0)
        .with(SmrField::CRC6_Bits_Source_Select.field(), 0x0)
        .with(SmrField::Framing_Bits_Source_Select.field(), 0x0)
}

/// The word programmed into FCR: its fields as this configuration sets them.
pub open spec fn fcr_word() -> RegisterWord {
    blank()
        .set(FcrField::Reframe.layout(), 0x0)
        .set(FcrField::Framing_with_CRC_Checking.layout(), 0x1)
        .set(FcrField::LOF_Tolerance.layout(), 0x2)
        .set(FcrField::LOF_Range.layout(), 0x5)
}

/// Builds the FCR word field by field.
pub fn build_fcr() -> (r: RegisterWord)
    ensures
        r == fcr_word(),
{
    RegisterWord::zero()
        .with(FcrField::Reframe.field(), 0x0)
        .with(FcrField::Framing_with_CRC_Checking.field(), 0x1)
        .with(FcrField::LOF_Tolerance.field(), 0x2)
        .with(FcrField::LOF_Range.field(), 0x5)
}

/// The word programmed into DLCR1: its fields as this configuration sets them.
pub open spec fn dlcr1_word() -> RegisterWord {
    blank()
        .set(Dlcr1Field::SLC96_Data_Link_Enable.layout(), 0x0)
        .set(Dlcr1Field::MOS_ABORT_Disable.layout(), 0x0)
        .set(Dlcr1Field::Rx_FCS_DIS.layout(), 0x0)
        .set(Dlcr1Field::AutoRx.layout(), 0x0)
        .set(Dlcr1Field::Tx_ABORT.layout(), 0x0)
        .set(Dlcr1Field::Tx_IDLE.layout(), 0x0)
        .set(Dlcr1Field::Tx_FCS_EN.layout(), 0x0)
        .set(Dlcr1Field::MOS_BOSn.layout(), 0x1)
}

/// Builds the DLCR1 word field by field.
pub fn build_dlcr1() -> (r: RegisterWord)
    ensures
        r == dlcr1_word(),
{
    RegisterWord::zero()
        .with(Dlcr1Field::SLC96_Data_Link_Enable.field(), 0x0)
        .with(Dlcr1Field::MOS_ABORT_Disable.field(), 0x0)
        .with(Dlcr1Field::Rx_FCS_DIS.field(), 0x0)
        .with(Dlcr1Field::AutoRx.field(), 0x0)
        .with(Dlcr1Field::Tx_ABORT.field(), 0x0)
        .with(Dlcr1Field::Tx_IDLE.field(), 0x0)
        .with(Dlcr1Field::Tx_FCS_EN.field(), 0x0)
        .with(Dlcr1Field::MOS_BOSn.field(), 0x1)
}

/// The word programmed into TSPRMCR: its fields as this configuration sets them.
pub open spec fn tsprmcr_word() -> RegisterWord {
    blank()
        .set(TsprmcrField::FC_Bit.layout(), 0x0)
        .set(TsprmcrField::PA_Bit.layout(), 0x0)
        .set(TsprmcrField::U1_Bit.layout(), 0x0)
        .set(TsprmcrField::U2_Bit.layout(), 0x0)
        .set(TsprmcrField::R_Bit.layout(), 0x0)
}

/// Builds the TSPRMCR word field by field.
pub fn build_tsprmcr() -> (r: RegisterWord)
    ensures
        r == tsprmcr_word(),
{
    RegisterWord::zero()
        .with(TsprmcrField::FC_Bit.field(), 0x0)
        .with(TsprmcrField::PA_Bit.field(), 0x0)
        .with(TsprmcrField::U1_Bit.field(), 0x0)
        .with(TsprmcrField::U2_Bit.field(), 0x0)
        .with(TsprmcrField::R_Bit.field(), 0x0)
}

/// The word programmed into PRCR: its fields as this configuration sets them.
pub open spec fn prcr_word() -> RegisterWord {
    blank()
        .set(PrcrField::LBO_ADJ_ENB.layout(), 0x0)
        .set(PrcrField::FAR_END.layout(), 0x0)
        .set(PrcrField::NPRM.layout(), 0x0)
        .set(PrcrField::C_R_Bit.layout(), 0x0)
        .set(PrcrField::APCR.layout(), AutomaticPerformanceReport::EverySecond.code())
}

/// Builds the PRCR word field by field.
pub fn build_prcr() -> (r: RegisterWord)
    ensures
        r == prcr_word(),
{
    RegisterWord::zero()
        .with(PrcrField::LBO_ADJ_ENB.field(), 0x0)
        .with(PrcrField::FAR_END.field(), 0x0)
        .with(PrcrField::NPRM.field(), 0x0)
        .with(PrcrField::C_R_Bit.field(), 0x0)
        .with(PrcrField::APCR.field(), AutomaticPerformanceReport::EverySecond.value())
}

/// The word programmed into SBCR: its fields as this configuration sets them.
pub open spec fn sbcr_word() -> RegisterWord {
    blank()
        .set(SbcrField::TxSB_ISFIFO.layout(), 0x0)
        .set(SbcrField::SB_FORCESF.layout(), 0x0)
        .set(SbcrField::SB_SFENB.layout(), 0x0)
        .set(SbcrField::SB_SDIR.layout(), 0x1)
        .set(SbcrField::SB_ENB.layout(), ReceiveSlipBuffer::SlipBuffer.code())
}

/// Builds the SBCR word field by field.
pub fn build_sbcr() -> (r: RegisterWord)
    ensures
        r == sbcr_word(),
{
    RegisterWord::zero()
        .with(SbcrField::TxSB_ISFIFO.field(), 0x0)
        .with(SbcrField::SB_FORCESF.field(), 0x0)
        .with(SbcrField::SB_SFENB.field(), 0x0)
        .with(SbcrField::SB_SDIR.field(), 0x1)
        .with(SbcrField::SB_ENB.field(), ReceiveSlipBuffer::SlipBuffer.value())
}

/// The word programmed into TICR: its fields as this configuration sets them.
pub open spec fn ticr_word() -> RegisterWord {
    blank()
        .set(TicrField::TxSyncFrD.layout(), 0x0)
        .set(TicrField::TxPLClkEnb_TxSync_Is_Low.layout(), 0x0)
        .set(TicrField::TxFr1544.layout(), 0x0)
        .set(TicrField::TxICLKINV.layout(), 0x0)
        .set(TicrField::TxIMODE.layout(), 0x0)
}

/// Builds the TICR word field by field.
pub fn build_ticr() -> (r: RegisterWord)
    ensures
        r == ticr_word(),
{
    RegisterWord::zero()
        .with(TicrField::TxSyncFrD.field(), 0x0)
        .with(TicrField::TxPLClkEnb_TxSync_Is_Low.field(), 0x0)
        .with(TicrField::TxFr1544.field(), 0x0)
        .with(TicrField::TxICLKINV.field(), 0x0)
        .with(TicrField::TxIMODE.field(), 0x0)
}

/// The word programmed into RICR: its fields as this configuration sets them.
pub open spec fn ricr_word() -> RegisterWord {
    blank()
        .set(RicrField::RxSyncFrD.layout(), 0x0)
        .set(RicrField::RxPLClkEnb_RxSync_Is_Low.layout(), 0x0)
        .set(RicrField::RxFr1544.layout(), 0x1)
        .set(RicrField::RxICLKINV.layout(), 0x0)
        .set(RicrField::RxMUXEN.layout(), 0x0)
        .set(RicrField::RxIMODE.layout(), 0x0)
}

/// Builds the RICR word field by field.
pub fn build_ricr() -> (r: RegisterWord)
    ensures
        r == ricr_word(),
{
    RegisterWord::zero()
        .with(RicrField::RxSyncFrD.field(), 0x0)
        .with(RicrField::RxPLClkEnb_RxSync_Is_Low.field(), 0x0)
        .with(RicrField::RxFr1544.field(), 0x1)
        .with(RicrField::RxICLKINV.field(), 0x0)
        .with(RicrField::RxMUXEN.field(), 0x0)
        .with(RicrField::RxIMODE.field(), 0x0)
}

/// The word programmed into LIUCCR0: its fields as this configuration sets them.
pub open spec fn liuccr0_word() -> RegisterWord {
    blank()
        .set(Liuccr0Field::QRSS_n_PRBS_n.layout(), PRBSPattern::PRBS.code())
        .set(Liuccr0Field::PRBS_Rx_n_PRBS_Tx_n.layout(), PRBSDestination::TTIP_TRING.code())
        .set(Liuccr0Field::RXON_n.layout(), 0x1)
        .set(Liuccr0Field::EQC.layout(), 0x8)
}

/// Builds the LIUCCR0 word field by field.
pub fn build_liuccr0() -> (r: RegisterWord)
    ensures
        r == liuccr0_word(),
{
    RegisterWord::zero()
        .with(Liuccr0Field::QRSS_n_PRBS_n.field(), PRBSPattern::PRBS.value())
        .with(Liuccr0Field::PRBS_Rx_n_PRBS_Tx_n.field(), PRBSDestination::TTIP_TRING.value())
        .with(Liuccr0Field::RXON_n.field(), 0x1)
        .with(Liuccr0Field::EQC.field(), 0x8)
}

/// The word programmed into LIUCCR1: its fields as this configuration sets them.
pub open spec fn liuccr1_word() -> RegisterWord {
    blank()
        .set(Liuccr1Field::RXTSEL_n.layout(), Termination::Internal.code())
        .set(Liuccr1Field::TXTSEL_n.layout(), Termination::Internal.code())
        .set(Liuccr1Field::TERSEL.layout(), TerminationImpedance::Ohms100.code())
        .set(Liuccr1Field::RxJASEL_n.layout(), 0x1)
        .set(Liuccr1Field::TxJASEL_n.layout(), 0x1)
        .set(Liuccr1Field::JABW_n.layout(), 0x0)
        .set(Liuccr1Field::FIFOS_n.layout(), 0x0)
}

/// Builds the LIUCCR1 word field by field.
pub fn build_liuccr1() -> (r: RegisterWord)
    ensures
        r == liuccr1_word(),
{
    RegisterWord::zero()
        .with(Liuccr1Field::RXTSEL_n.field(), Termination::Internal.value())
        .with(Liuccr1Field::TXTSEL_n.field(), Termination::Internal.value())
        .with(Liuccr1Field::TERSEL.field(), TerminationImpedance::Ohms100.value())
        .with(Liuccr1Field::RxJASEL_n.field(), 0x1)
        .with(Liuccr1Field::TxJASEL_n.field(), 0x1)
        .with(Liuccr1Field::JABW_n.field(), 0x0)
        .with(Liuccr1Field::FIFOS_n.field(), 0x0)
}

/// The word programmed into LIUCCR2: its fields as this configuration sets them.
pub open spec fn liuccr2_word() -> RegisterWord {
    blank()
        .set(Liuccr2Field::INVQRSS_n.layout(), 0x0)
        .set(Liuccr2Field::TXTEST.layout(), TransmitTestPattern::Disabled.code())
        .set(Liuccr2Field::TXON_n.layout(), 0x1)
        .set(Liuccr2Field::LOOP2_n.layout(), LIULoopback::Disabled.code())
}

/// Builds the LIUCCR2 word field by field.
pub fn build_liuccr2() -> (r: RegisterWord)
    ensures
        r == liuccr2_word(),
{
    RegisterWord::zero()
        .with(Liuccr2Field::INVQRSS_n.field(), 0x0)
        .with(Liuccr2Field::TXTEST.field(), TransmitTestPattern::Disabled.value())
        .with(Liuccr2Field::TXON_n.field(), 0x1)
        .with(Liuccr2Field::LOOP2_n.field(), LIULoopback::Disabled.value())
}

/// The word programmed into TCCR: its fields as this configuration sets them.
pub open spec fn tccr_word() -> RegisterWord {
    blank()
        .set(TccrField::LAPDcntl.layout(), TransmitLAPDSource::TSDLSR_TxDE.code())
        .set(TccrField::TxZERO.layout(), ZeroCodeSuppression::Disabled.code())
        .set(TccrField::TxCOND.layout(), ChannelConditioning::Unchanged.code())
}

/// Builds the TCCR word field by field.
pub fn build_tccr() -> (r: RegisterWord)
    ensures
        r == tccr_word(),
{
    RegisterWord::zero()
        .with(TccrField::LAPDcntl.field(), TransmitLAPDSource::TSDLSR_TxDE.value())
        .with(TccrField::TxZERO.field(), ZeroCodeSuppression::Disabled.value())
        .with(TccrField::TxCOND.field(), ChannelConditioning::Unchanged.value())
}

/// The word programmed into TUCR: its fields as this configuration sets them.
pub open spec fn tucr_word() -> RegisterWord {
    blank()
        .set(TucrField::TUCR.layout(), 0x17)
}

/// Builds the TUCR word field by field.
pub fn build_tucr() -> (r: RegisterWord)
    ensures
        r == tucr_word(),
{
    RegisterWord::zero()
        .with(TucrField::TUCR.field(), 0x17)
}

/// The word programmed into TSCR: its fields as this configuration sets them.
pub open spec fn tscr_word() -> RegisterWord {
    blank()
        .set(TscrField::A_x.layout(), 0x0)
        .set(TscrField::B_y.layout(), 0x1)
        .set(TscrField::C_x.layout(), 0x0)
        .set(TscrField::D_x.layout(), 0x1)
        .set(TscrField::Rob_Enb.layout(), 0x1)
        .set(TscrField::TxSIGSRC.layout(), ChannelSignalingSource::TSCR.code())
}

/// Builds the TSCR word field by field.
pub fn build_tscr() -> (r: RegisterWord)
    ensures
        r == tscr_word(),
{
    RegisterWord::zero()
        .with(TscrField::A_x.field(), 0x0)
        .with(TscrField::B_y.field(), 0x1)
        .with(TscrField::C_x.field(), 0x0)
        .with(TscrField::D_x.field(), 0x1)
        .with(TscrField::Rob_Enb.field(), 0x1)
        .with(TscrField::TxSIGSRC.field(), ChannelSignalingSource::TSCR.value())
}

/// The word programmed into RCCR: its fields as this configuration sets them.
pub open spec fn rccr_word() -> RegisterWord {
    blank()
        .set(RccrField::LAPDcntl.layout(), ReceiveLAPDSource::RSDLSR_RxDE.code())
        .set(RccrField::RxZERO.layout(), ZeroCodeSuppression::Disabled.code())
        .set(RccrField::RxCOND.layout(), ChannelConditioning::Unchanged.code())
}

/// Builds the RCCR word field by field.
pub fn build_rccr() -> (r: RegisterWord)
    ensures
        r == rccr_word(),
{
    RegisterWord::zero()
        .with(RccrField::LAPDcntl.field(), ReceiveLAPDSource::RSDLSR_RxDE.value())
        .with(RccrField::RxZERO.field(), ZeroCodeSuppression::Disabled.value())
        .with(RccrField::RxCOND.field(), ChannelConditioning::Unchanged.value())
}

/// The word programmed into RUCR: its fields as this configuration sets them.
pub open spec fn rucr_word() -> RegisterWord {
    blank()
        .set(RucrField::RxUSER.layout(), 0xff)
}

/// Builds the RUCR word field by field.
pub fn build_rucr() -> (r: RegisterWord)
    ensures
        r == rucr_word(),
{
    RegisterWord::zero()
        .with(RucrField::RxUSER.field(), 0xff)
}

/// The word programmed into RSCR: its fields as this configuration sets them.
pub open spec fn rscr_word() -> RegisterWord {
    blank()
        .set(RscrField::SIGC_ENB.layout(), 0x0)
        .set(RscrField::OH_ENB.layout(), 0x0)
        .set(RscrField::DEB_ENB.layout(), 0x0)
        .set(RscrField::RxSIGC.layout(), ReceiveSignalingConditioning::SixteenCode_ABCD.code())
        .set(RscrField::RxSIGE.layout(), ReceiveSignalingExtraction::SixteenCode_ABCD.code())
}

/// Builds the RSCR word field by field.
pub fn build_rscr() -> (r: RegisterWord)
    ensures
        r == rscr_word(),
{
    RegisterWord::zero()
        .with(RscrField::SIGC_ENB.field(), 0x0)
        .with(RscrField::OH_ENB.field(), 0x0)
        .with(RscrField::DEB_ENB.field(), 0x0)
        .with(RscrField::RxSIGC.field(), ReceiveSignalingConditioning::SixteenCode_ABCD.value())
        .with(RscrField::RxSIGE.field(), ReceiveSignalingExtraction::SixteenCode_ABCD.value())
}

/// The word programmed into RSSR: its fields as this configuration sets them.
pub open spec fn rssr_word() -> RegisterWord {
    blank()
        .set(RssrField::SIG_16A_4A_2A.layout(), 0x0)
        .set(RssrField::SIG_16B_4B_2A.layout(), 0x0)
        .set(RssrField::SIG_16C_4A_2A.layout(), 0x0)
        .set(RssrField::SIG_16D_4B_2A.layout(), 0x0)
}

/// Builds the RSSR word field by field.
pub fn build_rssr() -> (r: RegisterWord)
    ensures
        r == rssr_word(),
{
    RegisterWord::zero()
        .with(RssrField::SIG_16A_4A_2A.field(), 0x0)
        .with(RssrField::SIG_16B_4B_2A.field(), 0x0)
        .with(RssrField::SIG_16C_4A_2A.field(), 0x0)
        .with(RssrField::SIG_16D_4B_2A.field(), 0x0)
}

/// The word programmed into LIUGCR4: its fields as this configuration sets them.
pub open spec fn liugcr4_word() -> RegisterWord {
    blank()
        .set(Liugcr4Field::CLKSEL.layout(), ClockSelect::M16_384.code())
}

/// Builds the LIUGCR4 word field by field.
pub fn build_liugcr4() -> (r: RegisterWord)
    ensures
        r == liugcr4_word(),
{
    RegisterWord::zero()
        .with(Liugcr4Field::CLKSEL.field(), ClockSelect::M16_384.value())
}

} // verus!
