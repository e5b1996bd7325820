use vstd::prelude::*;

verus! {

/// The type codes of pcapng blocks.
#[allow(non_camel_case_types)]
#[derive(Debug, Clone, Copy, PartialEq, Eq, Structural)]
pub enum BlockType {
    InterfaceDescription,
    Packet,
    SimplePacket,
    NameResolution,
    InterfaceStatistics,
    EnhancedPacket,
    IrigTimestamp,
    Arinc429_AFDX,
    SectionHeader,
}

impl BlockType {
    /// The number that stands for this value in a capture file.
    pub open spec fn spec_code(self) -> u32 {
        match self {
            BlockType::InterfaceDescription => 1,
            BlockType::Packet => 2,
            BlockType::SimplePacket => 3,
            BlockType::NameResolution => 4,
            BlockType::InterfaceStatistics => 5,
            BlockType::EnhancedPacket => 6,
            BlockType::IrigTimestamp => 7,
            BlockType::Arinc429_AFDX => 8,
            BlockType::SectionHeader => 0x0A0D0D0A,
        }
    }

    /// The number that stands for this value in a capture file.
    pub fn code(&self) -> (c: u32)
        ensures
            c == self.spec_code(),
    {
        match self {
            BlockType::InterfaceDescription => 1,
            BlockType::Packet => 2,
            BlockType::SimplePacket => 3,
            BlockType::NameResolution => 4,
            BlockType::InterfaceStatistics => 5,
            BlockType::EnhancedPacket => 6,
            BlockType::IrigTimestamp => 7,
            BlockType::Arinc429_AFDX => 8,
            BlockType::SectionHeader => 0x0A0D0D0A,
        }
    }

    /// The value that `code` stands for, if any.
    pub open spec fn spec_from_code(code: u32) -> Option<BlockType> {
        if code == 1 {
            Some(BlockType::InterfaceDescription)
        } else if code == 2 {
            Some(BlockType::Packet)
        } else if code == 3 {
            Some(BlockType::SimplePacket)
        } else if code == 4 {
            Some(BlockType::NameResolution)
        } else if code == 5 {
            Some(BlockType::InterfaceStatistics)
        } else if code == 6 {
            Some(BlockType::EnhancedPacket)
        } else if code == 7 {
            Some(BlockType::IrigTimestamp)
        } else if code == 8 {
            Some(BlockType::Arinc429_AFDX)
        } else if code == 0x0A0D0D0A {
            Some(BlockType::SectionHeader)
        } else {
            None
        }
    }

    /// Each code stands for one value only: the value is found again
    /// from its code.
    pub proof fn lemma_code_identifies(self)
        ensures
            BlockType::spec_from_code(self.spec_code()) == Some(self),
    {
    }
}

/// Link Type
///
/// The link-layer header types an interface can record, as listed in the
/// appendix of the pcapng draft.
#[allow(non_camel_case_types)]
#[derive(Debug, Clone, Copy, PartialEq, Eq, Structural)]
pub enum LinkType {
    NULL,
    ETHERNET,
    EXP_ETHERNET,
    AX25,
    PRONET,
    CHAOS,
    TOKEN_RING,
    ARCNET,
    SLIP,
    PPP,
    FDDI,
    PPP_HDLC,
    PPP_ETHER,
    SYMANTEC_FIREWALL,
    ATM_RFC1483,
    RAW,
    SLIP_BSDOS,
    PPP_BSDOS,
    C_HDLC,
    IEEE802_11,
    ATM_CLIP,
    FRELAY,
    LOOP,
    ENC,
    LANE8023,
    HIPPI,
    HDLC,
    LINUX_SLL,
    LTALK,
    ECONET,
    IPFILTER,
    PFLOG,
    CISCO_IOS,
    PRISM_HEADER,
    AIRONET_HEADER,
    HHDLC,
    IP_OVER_FC,
    SUNATM,
    RIO,
    PCI_EXP,
    AURORA,
    IEEE802_11_RADIO,
    TZSP,
    ARCNET_LINUX,
    JUNIPER_MLPPP,
    JUNIPER_MLFR,
    JUNIPER_ES,
    JUNIPER_GGSN,
    JUNIPER_MFR,
    JUNIPER_ATM2,
    JUNIPER_SERVICES,
    JUNIPER_ATM1,
    APPLE_IP_OVER_IEEE1394,
    MTP2_WITH_PHDR,
    MTP2,
    MTP3,
    SCCP,
    DOCSIS,
    LINUX_IRDA,
    IBM_SP,
    IBM_SN,
}

impl LinkType {
    /// The number that stands for this value in a capture file.
    pub open spec fn spec_code(self) -> u16 {
        match self {
            LinkType::NULL => 0,
            LinkType::ETHERNET => 1,
            LinkType::EXP_ETHERNET => 2,
            LinkType::AX25 => 3,
            LinkType::PRONET => 4,
            LinkType::CHAOS => 5,
            LinkType::TOKEN_RING => 6,
            LinkType::ARCNET => 7,
            LinkType::SLIP => 8,
            LinkType::PPP => 9,
            LinkType::FDDI => 10,
            LinkType::PPP_HDLC => 50,
            LinkType::PPP_ETHER => 51,
            LinkType::SYMANTEC_FIREWALL => 52,
            LinkType::ATM_RFC1483 => 100,
            LinkType::RAW => 101,
            LinkType::SLIP_BSDOS => 102,
            LinkType::PPP_BSDOS => 103,
            LinkType::C_HDLC => 104,
            LinkType::IEEE802_11 => 105,
            LinkType::ATM_CLIP => 106,
            LinkType::FRELAY => 107,
            LinkType::LOOP => 108,
            LinkType::ENC => 109,
            LinkType::LANE8023 => 110,
            LinkType::HIPPI => 111,
            LinkType::HDLC => 112,
            LinkType::LINUX_SLL => 113,
            LinkType::LTALK => 114,
            LinkType::ECONET => 115,
            LinkType::IPFILTER => 116,
            LinkType::PFLOG => 117,
            LinkType::CISCO_IOS => 118,
            LinkType::PRISM_HEADER => 119,
            LinkType::AIRONET_HEADER => 120,
            LinkType::HHDLC => 121,
            LinkType::IP_OVER_FC => 122,
            LinkType::SUNATM => 123,
            LinkType::RIO => 124,
            LinkType::PCI_EXP => 125,
            LinkType::AURORA => 126,
            LinkType::IEEE802_11_RADIO => 127,
            LinkType::TZSP => 128,
            LinkType::ARCNET_LINUX => 129,
            LinkType::JUNIPER_MLPPP => 130,
            LinkType::JUNIPER_MLFR => 131,
            LinkType::JUNIPER_ES => 132,
            LinkType::JUNIPER_GGSN => 133,
            LinkType::JUNIPER_MFR => 134,
            LinkType::JUNIPER_ATM2 => 135,
            LinkType::JUNIPER_SERVICES => 136,
            LinkType::JUNIPER_ATM1 => 137,
            LinkType::APPLE_IP_OVER_IEEE1394 => 138,
            LinkType::MTP2_WITH_PHDR => 139,
            LinkType::MTP2 => 140,
            LinkType::MTP3 => 141,
            LinkType::SCCP => 142,
            LinkType::DOCSIS => 143,
            LinkType::LINUX_IRDA => 144,
            LinkType::IBM_SP => 145,
            LinkType::IBM_SN => 146,
        }
    }

    /// The number that stands for this value in a capture file.
    pub fn code(&self) -> (c: u16)
        ensures
            c == self.spec_code(),
    {
        match self {
            LinkType::NULL => 0,
            LinkType::ETHERNET => 1,
            LinkType::EXP_ETHERNET => 2,
            LinkType::AX25 => 3,
            LinkType::PRONET => 4,
            LinkType::CHAOS => 5,
            LinkType::TOKEN_RING => 6,
            LinkType::ARCNET => 7,
            LinkType::SLIP => 8,
            LinkType::PPP => 9,
            LinkType::FDDI => 10,
            LinkType::PPP_HDLC => 50,
            LinkType::PPP_ETHER => 51,
            LinkType::SYMANTEC_FIREWALL => 52,
            LinkType::ATM_RFC1483 => 100,
            LinkType::RAW => 101,
            LinkType::SLIP_BSDOS => 102,
            LinkType::PPP_BSDOS => 103,
            LinkType::C_HDLC => 104,
            LinkType::IEEE802_11 => 105,
            LinkType::ATM_CLIP => 106,
            LinkType::FRELAY => 107,
            LinkType::LOOP => 108,
            LinkType::ENC => 109,
            LinkType::LANE8023 => 110,
            LinkType::HIPPI => 111,
            LinkType::HDLC => 112,
            LinkType::LINUX_SLL => 113,
            LinkType::LTALK => 114,
            LinkType::ECONET => 115,
            LinkType::IPFILTER => 116,
            LinkType::PFLOG => 117,
            LinkType::CISCO_IOS => 118,
            LinkType::PRISM_HEADER => 119,
            LinkType::AIRONET_HEADER => 120,
            LinkType::HHDLC => 121,
            LinkType::IP_OVER_FC => 122,
            LinkType::SUNATM => 123,
            LinkType::RIO => 124,
            LinkType::PCI_EXP => 125,
            LinkType::AURORA => 126,
            LinkType::IEEE802_11_RADIO => 127,
            LinkType::TZSP => 128,
            LinkType::ARCNET_LINUX => 129,
            LinkType::JUNIPER_MLPPP => 130,
            LinkType::JUNIPER_MLFR => 131,
            LinkType::JUNIPER_ES => 132,
            LinkType::JUNIPER_GGSN => 133,
            LinkType::JUNIPER_MFR => 134,
            LinkType::JUNIPER_ATM2 => 135,
            LinkType::JUNIPER_SERVICES => 136,
            LinkType::JUNIPER_ATM1 => 137,
            LinkType::APPLE_IP_OVER_IEEE1394 => 138,
            LinkType::MTP2_WITH_PHDR => 139,
            LinkType::MTP2 => 140,
            LinkType::MTP3 => 141,
            LinkType::SCCP => 142,
            LinkType::DOCSIS => 143,
            LinkType::LINUX_IRDA => 144,
            LinkType::IBM_SP => 145,
            LinkType::IBM_SN => 146,
        }
    }

    /// The value that `code` stands for, if any.
    pub open spec fn spec_from_code(code: u16) -> Option<LinkType> {
        if code == 0 {
            Some(LinkType::NULL)
        } else if code == 1 {
            Some(LinkType::ETHERNET)
        } else if code == 2 {
            Some(LinkType::EXP_ETHERNET)
        } else if code == 3 {
            Some(LinkType::AX25)
        } else if code == 4 {
            Some(LinkType::PRONET)
        } else if code == 5 {
            Some(LinkType::CHAOS)
        } else if code == 6 {
            Some(LinkType::TOKEN_RING)
        } else if code == 7 {
            Some(LinkType::ARCNET)
        } else if code == 8 {
            Some(LinkType::SLIP)
        } else if code == 9 {
            Some(LinkType::PPP)
        } else if code == 10 {
            Some(LinkType::FDDI)
        } else if code == 50 {
            Some(LinkType::PPP_HDLC)
        } else if code == 51 {
            Some(LinkType::PPP_ETHER)
        } else if code == 52 {
            Some(LinkType::SYMANTEC_FIREWALL)
        } else if code == 100 {
            Some(LinkType::ATM_RFC1483)
        } else if code == 101 {
            Some(LinkType::RAW)
        } else if code == 102 {
            Some(LinkType::SLIP_BSDOS)
        } else if code == 103 {
            Some(LinkType::PPP_BSDOS)
        } else if code == 104 {
            Some(LinkType::C_HDLC)
        } else if code == 105 {
            Some(LinkType::IEEE802_11)
        } else if code == 106 {
            Some(LinkType::ATM_CLIP)
        } else if code == 107 {
            Some(LinkType::FRELAY)
        } else if code == 108 {
            Some(LinkType::LOOP)
        } else if code == 109 {
            Some(LinkType::ENC)
        } else if code == 110 {
            Some(LinkType::LANE8023)
        } else if code == 111 {
            Some(LinkType::HIPPI)
        } else if code == 112 {
            Some(LinkType::HDLC)
        } else if code == 113 {
            Some(LinkType::LINUX_SLL)
        } else if code == 114 {
            Some(LinkType::LTALK)
        } else if code == 115 {
            Some(LinkType::ECONET)
        } else if code == 116 {
            Some(LinkType::IPFILTER)
        } else if code == 117 {
            Some(LinkType::PFLOG)
        } else if code == 118 {
            Some(LinkType::CISCO_IOS)
        } else if code == 119 {
            Some(LinkType::PRISM_HEADER)
        } else if code == 120 {
            Some(LinkType::AIRONET_HEADER)
        } else if code == 121 {
            Some(LinkType::HHDLC)
        } else if code == 122 {
            Some(LinkType::IP_OVER_FC)
        } else if code == 123 {
            Some(LinkType::SUNATM)
        } else if code == 124 {
            Some(LinkType::RIO)
        } else if code == 125 {
            Some(LinkType::PCI_EXP)
        } else if code == 126 {
            Some(LinkType::AURORA)
        } else if code == 127 {
            Some(LinkType::IEEE802_11_RADIO)
        } else if code == 128 {
            Some(LinkType::TZSP)
        } else if code == 129 {
            Some(LinkType::ARCNET_LINUX)
        } else if code == 130 {
            Some(LinkType::JUNIPER_MLPPP)
        } else if code == 131 {
            Some(LinkType::JUNIPER_MLFR)
        } else if code == 132 {
            Some(LinkType::JUNIPER_ES)
        } else if code == 133 {
            Some(LinkType::JUNIPER_GGSN)
        } else if code == 134 {
            Some(LinkType::JUNIPER_MFR)
        } else if code == 135 {
            Some(LinkType::JUNIPER_ATM2)
        } else if code == 136 {
            Some(LinkType::JUNIPER_SERVICES)
        } else if code == 137 {
            Some(LinkType::JUNIPER_ATM1)
        } else if code == 138 {
            Some(LinkType::APPLE_IP_OVER_IEEE1394)
        } else if code == 139 {
            Some(LinkType::MTP2_WITH_PHDR)
        } else if code == 140 {
            Some(LinkType::MTP2)
        } else if code == 141 {
            Some(LinkType::MTP3)
        } else if code == 142 {
            Some(LinkType::SCCP)
        } else if code == 143 {
            Some(LinkType::DOCSIS)
        } else if code == 144 {
            Some(LinkType::LINUX_IRDA)
        } else if code == 145 {
            Some(LinkType::IBM_SP)
        } else if code == 146 {
            Some(LinkType::IBM_SN)
        } else {
            None
        }
    }

    /// Each code stands for one value only: the value is found again
    /// from its code.
    pub proof fn lemma_code_identifies(self)
        ensures
            LinkType::spec_from_code(self.spec_code()) == Some(self),
    {
    }
}

/// The option codes of an interface description block.
#[allow(non_camel_case_types)]
#[derive(Debug, Clone, Copy, PartialEq, Eq, Structural)]
pub enum LinkTypeOptions {
    EndOfOpt,
    Comment,
    Name,
    Description,
    Ipv4Addr,
    Ipv6Addr,
    MacAddr,
    EuiAddr,
    Speed,
    TsResol,
    Tzone,
    Filter,
    OS,
    Fcslen,
    TsOffset,
}

impl LinkTypeOptions {
    /// The number that stands for this value in a capture file.
    pub open spec fn spec_code(self) -> u16 {
        match self {
            LinkTypeOptions::EndOfOpt => 0,
            LinkTypeOptions::Comment => 1,
            LinkTypeOptions::Name => 2,
            LinkTypeOptions::Description => 3,
            LinkTypeOptions::Ipv4Addr => 4,
            LinkTypeOptions::Ipv6Addr => 5,
            LinkTypeOptions::MacAddr => 6,
            LinkTypeOptions::EuiAddr => 7,
            LinkTypeOptions::Speed => 8,
            LinkTypeOptions::TsResol => 9,
            LinkTypeOptions::Tzone => 10,
            LinkTypeOptions::Filter => 11,
            LinkTypeOptions::OS => 12,
            LinkTypeOptions::Fcslen => 13,
            LinkTypeOptions::TsOffset => 14,
        }
    }

    /// The number that stands for this value in a capture file.
    pub fn code(&self) -> (c: u16)
        ensures
            c == self.spec_code(),
    {
        match self {
            LinkTypeOptions::EndOfOpt => 0,
            LinkTypeOptions::Comment => 1,
            LinkTypeOptions::Name => 2,
            LinkTypeOptions::Description => 3,
            LinkTypeOptions::Ipv4Addr => 4,
            LinkTypeOptions::Ipv6Addr => 5,
            LinkTypeOptions::MacAddr => 6,
            LinkTypeOptions::EuiAddr => 7,
            LinkTypeOptions::Speed => 8,
            LinkTypeOptions::TsResol => 9,
            LinkTypeOptions::Tzone => 10,
            LinkTypeOptions::Filter => 11,
            LinkTypeOptions::OS => 12,
            LinkTypeOptions::Fcslen => 13,
            LinkTypeOptions::TsOffset => 14,
        }
    }

    /// The value that `code` stands for, if any.
    pub open spec fn spec_from_code(code: u16) -> Option<LinkTypeOptions> {
        if code == 0 {
            Some(LinkTypeOptions::EndOfOpt)
        } else if code == 1 {
            Some(LinkTypeOptions::Comment)
        } else if code == 2 {
            Some(LinkTypeOptions::Name)
        } else if code == 3 {
            Some(LinkTypeOptions::Description)
        } else if code == 4 {
            Some(LinkTypeOptions::Ipv4Addr)
        } else if code == 5 {
            Some(LinkTypeOptions::Ipv6Addr)
        } else if code == 6 {
            Some(LinkTypeOptions::MacAddr)
        } else if code == 7 {
            Some(LinkTypeOptions::EuiAddr)
        } else if code == 8 {
            Some(LinkTypeOptions::Speed)
        } else if code == 9 {
            Some(LinkTypeOptions::TsResol)
        } else if code == 10 {
            Some(LinkTypeOptions::Tzone)
        } else if code == 11 {
            Some(LinkTypeOptions::Filter)
        } else if code == 12 {
            Some(LinkTypeOptions::OS)
        } else if code == 13 {
            Some(LinkTypeOptions::Fcslen)
        } else if code == 14 {
            Some(LinkTypeOptions::TsOffset)
        } else {
            None
        }
    }

    /// Each code stands for one value only: the value is found again
    /// from its code.
    pub proof fn lemma_code_identifies(self)
        ensures
            LinkTypeOptions::spec_from_code(self.spec_code()) == Some(self),
    {
    }
}

/// The option codes of an enhanced packet block.
#[allow(non_camel_case_types)]
#[derive(Debug, Clone, Copy, PartialEq, Eq, Structural)]
pub enum EnhancedPacketOptions {
    EndOfOpt,
    Comment,
    Flags,
    Hash,
    DropCount,
}

impl EnhancedPacketOptions {
    /// The number that stands for this value in a capture file.
    pub open spec fn spec_code(self) -> u16 {
        match self {
            EnhancedPacketOptions::EndOfOpt => 0,
            EnhancedPacketOptions::Comment => 1,
            EnhancedPacketOptions::Flags => 2,
            EnhancedPacketOptions::Hash => 3,
            EnhancedPacketOptions::DropCount => 4,
        }
    }

    /// The number that stands for this value in a capture file.
    pub fn code(&self) -> (c: u16)
        ensures
            c == self.spec_code(),
    {
        match self {
            EnhancedPacketOptions::EndOfOpt => 0,
            EnhancedPacketOptions::Comment => 1,
            EnhancedPacketOptions::Flags => 2,
            EnhancedPacketOptions::Hash => 3,
            EnhancedPacketOptions::DropCount => 4,
        }
    }

    /// The value that `code` stands for, if any.
    pub open spec fn spec_from_code(code: u16) -> Option<EnhancedPacketOptions> {
        if code == 0 {
            Some(EnhancedPacketOptions::EndOfOpt)
        } else if code == 1 {
            Some(EnhancedPacketOptions::Comment)
        } else if code == 2 {
            Some(EnhancedPacketOptions::Flags)
        } else if code == 3 {
            Some(EnhancedPacketOptions::Hash)
        } else if code == 4 {
            Some(EnhancedPacketOptions::DropCount)
        } else {
            None
        }
    }

    /// Each code stands for one value only: the value is found again
    /// from its code.
    pub proof fn lemma_code_identifies(self)
        ensures
            EnhancedPacketOptions::spec_from_code(self.spec_code()) == Some(self),
    {
    }
}

/// The option codes of an interface statistics block.
#[allow(non_camel_case_types)]
#[derive(Debug, Clone, Copy, PartialEq, Eq, Structural)]
pub enum InterfaceStatisticsOptions {
    EndOfOpt,
    Comment,
    StartTime,
    EndTime,
    IfRecv,
    IfDrop,
    FilterAccept,
    OSDrop,
    UsrDeliv,
}

impl InterfaceStatisticsOptions {
    /// The number that stands for this value in a capture file.
    pub open spec fn spec_code(self) -> u16 {
        match self {
            InterfaceStatisticsOptions::EndOfOpt => 0,
            InterfaceStatisticsOptions::Comment => 1,
            InterfaceStatisticsOptions::StartTime => 2,
            InterfaceStatisticsOptions::EndTime => 3,
            InterfaceStatisticsOptions::IfRecv => 4,
            InterfaceStatisticsOptions::IfDrop => 5,
            InterfaceStatisticsOptions::FilterAccept => 6,
            InterfaceStatisticsOptions::OSDrop => 7,
            InterfaceStatisticsOptions::UsrDeliv => 8,
        }
    }

    /// The number that stands for this value in a capture file.
    pub fn code(&self) -> (c: u16)
        ensures
            c == self.spec_code(),
    {
        match self {
            InterfaceStatisticsOptions::EndOfOpt => 0,
            InterfaceStatisticsOptions::Comment => 1,
            InterfaceStatisticsOptions::StartTime => 2,
            InterfaceStatisticsOptions::EndTime => 3,
            InterfaceStatisticsOptions::IfRecv => 4,
            InterfaceStatisticsOptions::IfDrop => 5,
            InterfaceStatisticsOptions::FilterAccept => 6,
            InterfaceStatisticsOptions::OSDrop => 7,
            InterfaceStatisticsOptions::UsrDeliv => 8,
        }
    }

    /// The value that `code` stands for, if any.
    pub open spec fn spec_from_code(code: u16) -> Option<InterfaceStatisticsOptions> {
        if code == 0 {
            Some(InterfaceStatisticsOptions::EndOfOpt)
        } else if code == 1 {
            Some(InterfaceStatisticsOptions::Comment)
        } else if code == 2 {
            Some(InterfaceStatisticsOptions::StartTime)
        } else if code == 3 {
            Some(InterfaceStatisticsOptions::EndTime)
        } else if code == 4 {
            Some(InterfaceStatisticsOptions::IfRecv)
        } else if code == 5 {
            Some(InterfaceStatisticsOptions::IfDrop)
        } else if code == 6 {
            Some(InterfaceStatisticsOptions::FilterAccept)
        } else if code == 7 {
            Some(InterfaceStatisticsOptions::OSDrop)
        } else if code == 8 {
            Some(InterfaceStatisticsOptions::UsrDeliv)
        } else {
            None
        }
    }

    /// Each code stands for one value only: the value is found again
    /// from its code.
    pub proof fn lemma_code_identifies(self)
        ensures
            InterfaceStatisticsOptions::spec_from_code(self.spec_code()) == Some(self),
    {
    }
}

} // verus!
