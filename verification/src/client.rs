//! The fully populated work aggregate as the metadata exporter
//! consumes it: one title with every nested bibliographic record, all
//! fields plain values.
//!
//! Quantities that the upstream records carry in foreign representations
//! are held here in the form the exporter reads: prices in minor units
//! of their currency, physical dimensions as their already-rendered
//! decimal strings, language and country codes as their wire names, and
//! the work's identifier as its hyphenated text.

use vstd::prelude::*;

use crate::model::{Date, Doi, Isbn, Orcid, Ror};

verus! {

/// The kind of publishable title.
#[derive(Clone, Debug, PartialEq)]
pub enum WorkType {
    BOOK_CHAPTER,
    MONOGRAPH,
    EDITED_BOOK,
    TEXTBOOK,
    JOURNAL_ISSUE,
    BOOK_SET,
    /// A value outside the closed code list; it must never reach a feed.
    Other(String),
}

impl WorkType {
    /// Whether the value lies inside the closed code list.
    pub open spec fn is_concrete(self) -> bool {
        !(self is Other)
    }

    /// The wire name of the variant, as the feeds print it.
    pub open spec fn spec_name(self) -> Seq<char> {
        match self {
            WorkType::BOOK_CHAPTER => "BOOK_CHAPTER"@,
            WorkType::MONOGRAPH => "MONOGRAPH"@,
            WorkType::EDITED_BOOK => "EDITED_BOOK"@,
            WorkType::TEXTBOOK => "TEXTBOOK"@,
            WorkType::JOURNAL_ISSUE => "JOURNAL_ISSUE"@,
            WorkType::BOOK_SET => "BOOK_SET"@,
            WorkType::Other(_) => Seq::empty(),
        }
    }

    /// Renders the wire name.
    pub fn name_str(&self) -> (r: String)
        requires
            self.is_concrete(),
        ensures
            r@ == self.spec_name(),
    {
        match self {
            WorkType::BOOK_CHAPTER => String::from_str("BOOK_CHAPTER"),
            WorkType::MONOGRAPH => String::from_str("MONOGRAPH"),
            WorkType::EDITED_BOOK => String::from_str("EDITED_BOOK"),
            WorkType::TEXTBOOK => String::from_str("TEXTBOOK"),
            WorkType::JOURNAL_ISSUE => String::from_str("JOURNAL_ISSUE"),
            WorkType::BOOK_SET => String::from_str("BOOK_SET"),
            WorkType::Other(_) => String::new(),
        }
    }
}

/// The publishing status of a work.
#[derive(Clone, Debug, PartialEq)]
pub enum WorkStatus {
    UNSPECIFIED,
    CANCELLED,
    FORTHCOMING,
    POSTPONED_INDEFINITELY,
    ACTIVE,
    NO_LONGER_OUR_PRODUCT,
    OUT_OF_STOCK_INDEFINITELY,
    OUT_OF_PRINT,
    INACTIVE,
    UNKNOWN,
    REMAINDERED,
    WITHDRAWN_FROM_SALE,
    RECALLED,
    /// A value outside the closed code list; it must never reach a feed.
    Other(String),
}

impl WorkStatus {
    /// Whether the value lies inside the closed code list.
    pub open spec fn is_concrete(self) -> bool {
        !(self is Other)
    }

    /// The wire name of the variant, as the feeds print it.
    pub open spec fn spec_name(self) -> Seq<char> {
        match self {
            WorkStatus::UNSPECIFIED => "UNSPECIFIED"@,
            WorkStatus::CANCELLED => "CANCELLED"@,
            WorkStatus::FORTHCOMING => "FORTHCOMING"@,
            WorkStatus::POSTPONED_INDEFINITELY => "POSTPONED_INDEFINITELY"@,
            WorkStatus::ACTIVE => "ACTIVE"@,
            WorkStatus::NO_LONGER_OUR_PRODUCT => "NO_LONGER_OUR_PRODUCT"@,
            WorkStatus::OUT_OF_STOCK_INDEFINITELY => "OUT_OF_STOCK_INDEFINITELY"@,
            WorkStatus::OUT_OF_PRINT => "OUT_OF_PRINT"@,
            WorkStatus::INACTIVE => "INACTIVE"@,
            WorkStatus::UNKNOWN => "UNKNOWN"@,
            WorkStatus::REMAINDERED => "REMAINDERED"@,
            WorkStatus::WITHDRAWN_FROM_SALE => "WITHDRAWN_FROM_SALE"@,
            WorkStatus::RECALLED => "RECALLED"@,
            WorkStatus::Other(_) => Seq::empty(),
        }
    }

    /// Renders the wire name.
    pub fn name_str(&self) -> (r: String)
        requires
            self.is_concrete(),
        ensures
            r@ == self.spec_name(),
    {
        match self {
            WorkStatus::UNSPECIFIED => String::from_str("UNSPECIFIED"),
            WorkStatus::CANCELLED => String::from_str("CANCELLED"),
            WorkStatus::FORTHCOMING => String::from_str("FORTHCOMING"),
            WorkStatus::POSTPONED_INDEFINITELY => String::from_str("POSTPONED_INDEFINITELY"),
            WorkStatus::ACTIVE => String::from_str("ACTIVE"),
            WorkStatus::NO_LONGER_OUR_PRODUCT => String::from_str("NO_LONGER_OUR_PRODUCT"),
            WorkStatus::OUT_OF_STOCK_INDEFINITELY => String::from_str("OUT_OF_STOCK_INDEFINITELY"),
            WorkStatus::OUT_OF_PRINT => String::from_str("OUT_OF_PRINT"),
            WorkStatus::INACTIVE => String::from_str("INACTIVE"),
            WorkStatus::UNKNOWN => String::from_str("UNKNOWN"),
            WorkStatus::REMAINDERED => String::from_str("REMAINDERED"),
            WorkStatus::WITHDRAWN_FROM_SALE => String::from_str("WITHDRAWN_FROM_SALE"),
            WorkStatus::RECALLED => String::from_str("RECALLED"),
            WorkStatus::Other(_) => String::new(),
        }
    }
}

/// The physical or digital format of a publication.
#[derive(Clone, Debug, PartialEq)]
pub enum PublicationType {
    PAPERBACK,
    HARDBACK,
    PDF,
    HTML,
    XML,
    EPUB,
    MOBI,
    /// A value outside the closed code list; it must never reach a feed.
    Other(String),
}

impl PublicationType {
    /// Whether the value lies inside the closed code list.
    pub open spec fn is_concrete(self) -> bool {
        !(self is Other)
    }

    /// The wire name of the variant, as the feeds print it.
    pub open spec fn spec_name(self) -> Seq<char> {
        match self {
            PublicationType::PAPERBACK => "PAPERBACK"@,
            PublicationType::HARDBACK => "HARDBACK"@,
            PublicationType::PDF => "PDF"@,
            PublicationType::HTML => "HTML"@,
            PublicationType::XML => "XML"@,
            PublicationType::EPUB => "EPUB"@,
            PublicationType::MOBI => "MOBI"@,
            PublicationType::Other(_) => Seq::empty(),
        }
    }

    /// Renders the wire name.
    pub fn name_str(&self) -> (r: String)
        requires
            self.is_concrete(),
        ensures
            r@ == self.spec_name(),
    {
        match self {
            PublicationType::PAPERBACK => String::from_str("PAPERBACK"),
            PublicationType::HARDBACK => String::from_str("HARDBACK"),
            PublicationType::PDF => String::from_str("PDF"),
            PublicationType::HTML => String::from_str("HTML"),
            PublicationType::XML => String::from_str("XML"),
            PublicationType::EPUB => String::from_str("EPUB"),
            PublicationType::MOBI => String::from_str("MOBI"),
            PublicationType::Other(_) => String::new(),
        }
    }
}

/// The kind of series an issue belongs to.
#[derive(Clone, Debug, PartialEq)]
pub enum SeriesType {
    JOURNAL,
    BOOK_SERIES,
    /// A value outside the closed code list; it must never reach a feed.
    Other(String),
}

impl SeriesType {
    /// Whether the value lies inside the closed code list.
    pub open spec fn is_concrete(self) -> bool {
        !(self is Other)
    }

    /// The wire name of the variant, as the feeds print it.
    pub open spec fn spec_name(self) -> Seq<char> {
        match self {
            SeriesType::JOURNAL => "JOURNAL"@,
            SeriesType::BOOK_SERIES => "BOOK_SERIES"@,
            SeriesType::Other(_) => Seq::empty(),
        }
    }

    /// Renders the wire name.
    pub fn name_str(&self) -> (r: String)
        requires
            self.is_concrete(),
        ensures
            r@ == self.spec_name(),
    {
        match self {
            SeriesType::JOURNAL => String::from_str("JOURNAL"),
            SeriesType::BOOK_SERIES => String::from_str("BOOK_SERIES"),
            SeriesType::Other(_) => String::new(),
        }
    }
}

/// The classification scheme a subject code belongs to.
#[derive(Clone, Debug, PartialEq)]
pub enum SubjectType {
    BIC,
    BISAC,
    THEMA,
    LCC,
    CUSTOM,
    KEYWORD,
    /// A value outside the closed code list; it must never reach a feed.
    Other(String),
}

impl SubjectType {
    /// Whether the value lies inside the closed code list.
    pub open spec fn is_concrete(self) -> bool {
        !(self is Other)
    }
}

/// The role a contributor played in a work.
#[derive(Clone, Debug, PartialEq)]
pub enum ContributionType {
    AUTHOR,
    EDITOR,
    TRANSLATOR,
    PHOTOGRAPHER,
    ILUSTRATOR,
    MUSIC_EDITOR,
    FOREWORD_BY,
    INTRODUCTION_BY,
    AFTERWORD_BY,
    PREFACE_BY,
    /// A value outside the closed code list; it must never reach a feed.
    Other(String),
}

impl ContributionType {
    /// Whether the value lies inside the closed code list.
    pub open spec fn is_concrete(self) -> bool {
        !(self is Other)
    }

    /// The wire name of the variant, as the feeds print it.
    pub open spec fn spec_name(self) -> Seq<char> {
        match self {
            ContributionType::AUTHOR => "AUTHOR"@,
            ContributionType::EDITOR => "EDITOR"@,
            ContributionType::TRANSLATOR => "TRANSLATOR"@,
            ContributionType::PHOTOGRAPHER => "PHOTOGRAPHER"@,
            ContributionType::ILUSTRATOR => "ILUSTRATOR"@,
            ContributionType::MUSIC_EDITOR => "MUSIC_EDITOR"@,
            ContributionType::FOREWORD_BY => "FOREWORD_BY"@,
            ContributionType::INTRODUCTION_BY => "INTRODUCTION_BY"@,
            ContributionType::AFTERWORD_BY => "AFTERWORD_BY"@,
            ContributionType::PREFACE_BY => "PREFACE_BY"@,
            ContributionType::Other(_) => Seq::empty(),
        }
    }

    /// Renders the wire name.
    pub fn name_str(&self) -> (r: String)
        requires
            self.is_concrete(),
        ensures
            r@ == self.spec_name(),
    {
        match self {
            ContributionType::AUTHOR => String::from_str("AUTHOR"),
            ContributionType::EDITOR => String::from_str("EDITOR"),
            ContributionType::TRANSLATOR => String::from_str("TRANSLATOR"),
            ContributionType::PHOTOGRAPHER => String::from_str("PHOTOGRAPHER"),
            ContributionType::ILUSTRATOR => String::from_str("ILUSTRATOR"),
            ContributionType::MUSIC_EDITOR => String::from_str("MUSIC_EDITOR"),
            ContributionType::FOREWORD_BY => String::from_str("FOREWORD_BY"),
            ContributionType::INTRODUCTION_BY => String::from_str("INTRODUCTION_BY"),
            ContributionType::AFTERWORD_BY => String::from_str("AFTERWORD_BY"),
            ContributionType::PREFACE_BY => String::from_str("PREFACE_BY"),
            ContributionType::Other(_) => String::new(),
        }
    }
}

/// How a language relates to the text of a work.
#[derive(Clone, Debug, PartialEq)]
pub enum LanguageRelation {
    ORIGINAL,
    TRANSLATED_FROM,
    TRANSLATED_INTO,
    /// A value outside the closed code list; it must never reach a feed.
    Other(String),
}

impl LanguageRelation {
    /// Whether the value lies inside the closed code list.
    pub open spec fn is_concrete(self) -> bool {
        !(self is Other)
    }

    /// The wire name of the variant, as the feeds print it.
    pub open spec fn spec_name(self) -> Seq<char> {
        match self {
            LanguageRelation::ORIGINAL => "ORIGINAL"@,
            LanguageRelation::TRANSLATED_FROM => "TRANSLATED_FROM"@,
            LanguageRelation::TRANSLATED_INTO => "TRANSLATED_INTO"@,
            LanguageRelation::Other(_) => Seq::empty(),
        }
    }

    /// Renders the wire name.
    pub fn name_str(&self) -> (r: String)
        requires
            self.is_concrete(),
        ensures
            r@ == self.spec_name(),
    {
        match self {
            LanguageRelation::ORIGINAL => String::from_str("ORIGINAL"),
            LanguageRelation::TRANSLATED_FROM => String::from_str("TRANSLATED_FROM"),
            LanguageRelation::TRANSLATED_INTO => String::from_str("TRANSLATED_INTO"),
            LanguageRelation::Other(_) => String::new(),
        }
    }
}

/// The platform hosting an access point of a publication.
#[derive(Clone, Debug, PartialEq)]
pub enum LocationPlatform {
    PROJECT_MUSE,
    OAPEN,
    DOAB,
    JSTOR,
    EBSCO_HOST,
    OCLC_KB,
    PROQUEST_KB,
    PROQUEST_EXLIBRIS,
    EBSCO_KB,
    JISC_KB,
    OTHER,
    /// A value outside the closed code list; it must never reach a feed.
    Other(String),
}

impl LocationPlatform {
    /// Whether the value lies inside the closed code list.
    pub open spec fn is_concrete(self) -> bool {
        !(self is Other)
    }

    /// The wire name of the variant, as the feeds print it.
    pub open spec fn spec_name(self) -> Seq<char> {
        match self {
            LocationPlatform::PROJECT_MUSE => "PROJECT_MUSE"@,
            LocationPlatform::OAPEN => "OAPEN"@,
            LocationPlatform::DOAB => "DOAB"@,
            LocationPlatform::JSTOR => "JSTOR"@,
            LocationPlatform::EBSCO_HOST => "EBSCO_HOST"@,
            LocationPlatform::OCLC_KB => "OCLC_KB"@,
            LocationPlatform::PROQUEST_KB => "PROQUEST_KB"@,
            LocationPlatform::PROQUEST_EXLIBRIS => "PROQUEST_EXLIBRIS"@,
            LocationPlatform::EBSCO_KB => "EBSCO_KB"@,
            LocationPlatform::JISC_KB => "JISC_KB"@,
            LocationPlatform::OTHER => "OTHER"@,
            LocationPlatform::Other(_) => Seq::empty(),
        }
    }

    /// Renders the wire name.
    pub fn name_str(&self) -> (r: String)
        requires
            self.is_concrete(),
        ensures
            r@ == self.spec_name(),
    {
        match self {
            LocationPlatform::PROJECT_MUSE => String::from_str("PROJECT_MUSE"),
            LocationPlatform::OAPEN => String::from_str("OAPEN"),
            LocationPlatform::DOAB => String::from_str("DOAB"),
            LocationPlatform::JSTOR => String::from_str("JSTOR"),
            LocationPlatform::EBSCO_HOST => String::from_str("EBSCO_HOST"),
            LocationPlatform::OCLC_KB => String::from_str("OCLC_KB"),
            LocationPlatform::PROQUEST_KB => String::from_str("PROQUEST_KB"),
            LocationPlatform::PROQUEST_EXLIBRIS => String::from_str("PROQUEST_EXLIBRIS"),
            LocationPlatform::EBSCO_KB => String::from_str("EBSCO_KB"),
            LocationPlatform::JISC_KB => String::from_str("JISC_KB"),
            LocationPlatform::OTHER => String::from_str("OTHER"),
            LocationPlatform::Other(_) => String::new(),
        }
    }
}

/// An ISO 4217 currency, by its three-letter code.
#[derive(Clone, Debug, PartialEq)]
pub enum CurrencyCode {
    ADP,
    AED,
    AFA,
    AFN,
    ALK,
    ALL,
    AMD,
    ANG,
    AOA,
    AOK,
    AON,
    AOR,
    ARA,
    ARP,
    ARS,
    ARY,
    ATS,
    AUD,
    AWG,
    AYM,
    AZM,
    AZN,
    BAD,
    BAM,
    BBD,
    BDT,
    BEC,
    BEF,
    BEL,
    BGJ,
    BGK,
    BGL,
    BGN,
    BHD,
    BIF,
    BMD,
    BND,
    BOB,
    BOP,
    BOV,
    BRB,
    BRC,
    BRE,
    BRL,
    BRN,
    BRR,
    BSD,
    BTN,
    BUK,
    BWP,
    BYB,
    BYN,
    BYR,
    BZD,
    CAD,
    CDF,
    CHC,
    CHE,
    CHF,
    CHW,
    CLF,
    CLP,
    CNY,
    COP,
    COU,
    CRC,
    CSD,
    CSJ,
    CSK,
    CUC,
    CUP,
    CVE,
    CYP,
    CZK,
    DDM,
    DEM,
    DJF,
    DKK,
    DOP,
    DZD,
    ECS,
    ECV,
    EEK,
    EGP,
    ERN,
    ESA,
    ESB,
    ESP,
    ETB,
    EUR,
    FIM,
    FJD,
    FKP,
    FRF,
    GBP,
    GEK,
    GEL,
    GHC,
    GHP,
    GHS,
    GIP,
    GMD,
    GNE,
    GNF,
    GNS,
    GQE,
    GRD,
    GTQ,
    GWE,
    GWP,
    GYD,
    HKD,
    HNL,
    HRD,
    HRK,
    HTG,
    HUF,
    IDR,
    IEP,
    ILP,
    ILR,
    ILS,
    INR,
    IQD,
    IRR,
    ISJ,
    ISK,
    ITL,
    JMD,
    JOD,
    JPY,
    KES,
    KGS,
    KHR,
    KMF,
    KPW,
    KRW,
    KWD,
    KYD,
    KZT,
    LAJ,
    LAK,
    LBP,
    LKR,
    LRD,
    LSL,
    LSM,
    LTL,
    LTT,
    LUC,
    LUF,
    LUL,
    LVL,
    LVR,
    LYD,
    MAD,
    MDL,
    MGA,
    MGF,
    MKD,
    MLF,
    MMK,
    MNT,
    MOP,
    MRO,
    MRU,
    MTL,
    MTP,
    MUR,
    MVQ,
    MVR,
    MWK,
    MXN,
    MXP,
    MXV,
    MYR,
    MZE,
    MZM,
    MZN,
    NAD,
    NGN,
    NIC,
    NIO,
    NLG,
    NOK,
    NPR,
    NZD,
    OMR,
    PAB,
    PEH,
    PEI,
    PEN,
    PES,
    PGK,
    PHP,
    PKR,
    PLN,
    PLZ,
    PTE,
    PYG,
    QAR,
    RHD,
    ROK,
    ROL,
    RON,
    RSD,
    RUB,
    RUR,
    RWF,
    SAR,
    SBD,
    SCR,
    SDD,
    SDG,
    SDP,
    SEK,
    SGD,
    SHP,
    SIT,
    SKK,
    SLL,
    SOS,
    SRD,
    SRG,
    SSP,
    STD,
    STN,
    SUR,
    SVC,
    SYP,
    SZL,
    THB,
    TJR,
    TJS,
    TMM,
    TMT,
    TND,
    TOP,
    TPE,
    TRL,
    TRY,
    TTD,
    TWD,
    TZS,
    UAH,
    UAK,
    UGS,
    UGW,
    UGX,
    USD,
    USN,
    USS,
    UYI,
    UYN,
    UYP,
    UYU,
    UYW,
    UZS,
    VEB,
    VEF,
    VES,
    VNC,
    VND,
    VUV,
    WST,
    XAF,
    XAG,
    XAU,
    XBA,
    XBB,
    XBC,
    XBD,
    XCD,
    XDR,
    XEU,
    XFO,
    XFU,
    XOF,
    XPD,
    XPF,
    XPT,
    XRE,
    XSU,
    XTS,
    XUA,
    XXX,
    YDD,
    YER,
    YUD,
    YUM,
    YUN,
    ZAL,
    ZAR,
    ZMK,
    ZMW,
    ZRN,
    ZRZ,
    ZWC,
    ZWD,
    ZWL,
    ZWN,
    ZWR,
    /// A value outside the closed code list; it must never reach a feed.
    Other(String),
}

impl CurrencyCode {
    /// Whether the value lies inside the closed code list.
    pub open spec fn is_concrete(self) -> bool {
        !(self is Other)
    }

    /// The wire name of the variant, as the feeds print it.
    pub open spec fn spec_name(self) -> Seq<char> {
        match self {
            CurrencyCode::ADP => "ADP"@,
            CurrencyCode::AED => "AED"@,
            CurrencyCode::AFA => "AFA"@,
            CurrencyCode::AFN => "AFN"@,
            CurrencyCode::ALK => "ALK"@,
            CurrencyCode::ALL => "ALL"@,
            CurrencyCode::AMD => "AMD"@,
            CurrencyCode::ANG => "ANG"@,
            CurrencyCode::AOA => "AOA"@,
            CurrencyCode::AOK => "AOK"@,
            CurrencyCode::AON => "AON"@,
            CurrencyCode::AOR => "AOR"@,
            CurrencyCode::ARA => "ARA"@,
            CurrencyCode::ARP => "ARP"@,
            CurrencyCode::ARS => "ARS"@,
            CurrencyCode::ARY => "ARY"@,
            CurrencyCode::ATS => "ATS"@,
            CurrencyCode::AUD => "AUD"@,
            CurrencyCode::AWG => "AWG"@,
            CurrencyCode::AYM => "AYM"@,
            CurrencyCode::AZM => "AZM"@,
            CurrencyCode::AZN => "AZN"@,
            CurrencyCode::BAD => "BAD"@,
            CurrencyCode::BAM => "BAM"@,
            CurrencyCode::BBD => "BBD"@,
            CurrencyCode::BDT => "BDT"@,
            CurrencyCode::BEC => "BEC"@,
            CurrencyCode::BEF => "BEF"@,
            CurrencyCode::BEL => "BEL"@,
            CurrencyCode::BGJ => "BGJ"@,
            CurrencyCode::BGK => "BGK"@,
            CurrencyCode::BGL => "BGL"@,
            CurrencyCode::BGN => "BGN"@,
            CurrencyCode::BHD => "BHD"@,
            CurrencyCode::BIF => "BIF"@,
            CurrencyCode::BMD => "BMD"@,
            CurrencyCode::BND => "BND"@,
            CurrencyCode::BOB => "BOB"@,
            CurrencyCode::BOP => "BOP"@,
            CurrencyCode::BOV => "BOV"@,
            CurrencyCode::BRB => "BRB"@,
            CurrencyCode::BRC => "BRC"@,
            CurrencyCode::BRE => "BRE"@,
            CurrencyCode::BRL => "BRL"@,
            CurrencyCode::BRN => "BRN"@,
            CurrencyCode::BRR => "BRR"@,
            CurrencyCode::BSD => "BSD"@,
            CurrencyCode::BTN => "BTN"@,
            CurrencyCode::BUK => "BUK"@,
            CurrencyCode::BWP => "BWP"@,
            CurrencyCode::BYB => "BYB"@,
            CurrencyCode::BYN => "BYN"@,
            CurrencyCode::BYR => "BYR"@,
            CurrencyCode::BZD => "BZD"@,
            CurrencyCode::CAD => "CAD"@,
            CurrencyCode::CDF => "CDF"@,
            CurrencyCode::CHC => "CHC"@,
            CurrencyCode::CHE => "CHE"@,
            CurrencyCode::CHF => "CHF"@,
            CurrencyCode::CHW => "CHW"@,
            CurrencyCode::CLF => "CLF"@,
            CurrencyCode::CLP => "CLP"@,
            CurrencyCode::CNY => "CNY"@,
            CurrencyCode::COP => "COP"@,
            CurrencyCode::COU => "COU"@,
            CurrencyCode::CRC => "CRC"@,
            CurrencyCode::CSD => "CSD"@,
            CurrencyCode::CSJ => "CSJ"@,
            CurrencyCode::CSK => "CSK"@,
            CurrencyCode::CUC => "CUC"@,
            CurrencyCode::CUP => "CUP"@,
            CurrencyCode::CVE => "CVE"@,
            CurrencyCode::CYP => "CYP"@,
            CurrencyCode::CZK => "CZK"@,
            CurrencyCode::DDM => "DDM"@,
            CurrencyCode::DEM => "DEM"@,
            CurrencyCode::DJF => "DJF"@,
            CurrencyCode::DKK => "DKK"@,
            CurrencyCode::DOP => "DOP"@,
            CurrencyCode::DZD => "DZD"@,
            CurrencyCode::ECS => "ECS"@,
            CurrencyCode::ECV => "ECV"@,
            CurrencyCode::EEK => "EEK"@,
            CurrencyCode::EGP => "EGP"@,
            CurrencyCode::ERN => "ERN"@,
            CurrencyCode::ESA => "ESA"@,
            CurrencyCode::ESB => "ESB"@,
            CurrencyCode::ESP => "ESP"@,
            CurrencyCode::ETB => "ETB"@,
            CurrencyCode::EUR => "EUR"@,
            CurrencyCode::FIM => "FIM"@,
            CurrencyCode::FJD => "FJD"@,
            CurrencyCode::FKP => "FKP"@,
            CurrencyCode::FRF => "FRF"@,
            CurrencyCode::GBP => "GBP"@,
            CurrencyCode::GEK => "GEK"@,
            CurrencyCode::GEL => "GEL"@,
            CurrencyCode::GHC => "GHC"@,
            CurrencyCode::GHP => "GHP"@,
            CurrencyCode::GHS => "GHS"@,
            CurrencyCode::GIP => "GIP"@,
            CurrencyCode::GMD => "GMD"@,
            CurrencyCode::GNE => "GNE"@,
            CurrencyCode::GNF => "GNF"@,
            CurrencyCode::GNS => "GNS"@,
            CurrencyCode::GQE => "GQE"@,
            CurrencyCode::GRD => "GRD"@,
            CurrencyCode::GTQ => "GTQ"@,
            CurrencyCode::GWE => "GWE"@,
            CurrencyCode::GWP => "GWP"@,
            CurrencyCode::GYD => "GYD"@,
            CurrencyCode::HKD => "HKD"@,
            CurrencyCode::HNL => "HNL"@,
            CurrencyCode::HRD => "HRD"@,
            CurrencyCode::HRK => "HRK"@,
            CurrencyCode::HTG => "HTG"@,
            CurrencyCode::HUF => "HUF"@,
            CurrencyCode::IDR => "IDR"@,
            CurrencyCode::IEP => "IEP"@,
            CurrencyCode::ILP => "ILP"@,
            CurrencyCode::ILR => "ILR"@,
            CurrencyCode::ILS => "ILS"@,
            CurrencyCode::INR => "INR"@,
            CurrencyCode::IQD => "IQD"@,
            CurrencyCode::IRR => "IRR"@,
            CurrencyCode::ISJ => "ISJ"@,
            CurrencyCode::ISK => "ISK"@,
            CurrencyCode::ITL => "ITL"@,
            CurrencyCode::JMD => "JMD"@,
            CurrencyCode::JOD => "JOD"@,
            CurrencyCode::JPY => "JPY"@,
            CurrencyCode::KES => "KES"@,
            CurrencyCode::KGS => "KGS"@,
            CurrencyCode::KHR => "KHR"@,
            CurrencyCode::KMF => "KMF"@,
            CurrencyCode::KPW => "KPW"@,
            CurrencyCode::KRW => "KRW"@,
            CurrencyCode::KWD => "KWD"@,
            CurrencyCode::KYD => "KYD"@,
            CurrencyCode::KZT => "KZT"@,
            CurrencyCode::LAJ => "LAJ"@,
            CurrencyCode::LAK => "LAK"@,
            CurrencyCode::LBP => "LBP"@,
            CurrencyCode::LKR => "LKR"@,
            CurrencyCode::LRD => "LRD"@,
            CurrencyCode::LSL => "LSL"@,
            CurrencyCode::LSM => "LSM"@,
            CurrencyCode::LTL => "LTL"@,
            CurrencyCode::LTT => "LTT"@,
            CurrencyCode::LUC => "LUC"@,
            CurrencyCode::LUF => "LUF"@,
            CurrencyCode::LUL => "LUL"@,
            CurrencyCode::LVL => "LVL"@,
            CurrencyCode::LVR => "LVR"@,
            CurrencyCode::LYD => "LYD"@,
            CurrencyCode::MAD => "MAD"@,
            CurrencyCode::MDL => "MDL"@,
            CurrencyCode::MGA => "MGA"@,
            CurrencyCode::MGF => "MGF"@,
            CurrencyCode::MKD => "MKD"@,
            CurrencyCode::MLF => "MLF"@,
            CurrencyCode::MMK => "MMK"@,
            CurrencyCode::MNT => "MNT"@,
            CurrencyCode::MOP => "MOP"@,
            CurrencyCode::MRO => "MRO"@,
            CurrencyCode::MRU => "MRU"@,
            CurrencyCode::MTL => "MTL"@,
            CurrencyCode::MTP => "MTP"@,
            CurrencyCode::MUR => "MUR"@,
            CurrencyCode::MVQ => "MVQ"@,
            CurrencyCode::MVR => "MVR"@,
            CurrencyCode::MWK => "MWK"@,
            CurrencyCode::MXN => "MXN"@,
            CurrencyCode::MXP => "MXP"@,
            CurrencyCode::MXV => "MXV"@,
            CurrencyCode::MYR => "MYR"@,
            CurrencyCode::MZE => "MZE"@,
            CurrencyCode::MZM => "MZM"@,
            CurrencyCode::MZN => "MZN"@,
            CurrencyCode::NAD => "NAD"@,
            CurrencyCode::NGN => "NGN"@,
            CurrencyCode::NIC => "NIC"@,
            CurrencyCode::NIO => "NIO"@,
            CurrencyCode::NLG => "NLG"@,
            CurrencyCode::NOK => "NOK"@,
            CurrencyCode::NPR => "NPR"@,
            CurrencyCode::NZD => "NZD"@,
            CurrencyCode::OMR => "OMR"@,
            CurrencyCode::PAB => "PAB"@,
            CurrencyCode::PEH => "PEH"@,
            CurrencyCode::PEI => "PEI"@,
            CurrencyCode::PEN => "PEN"@,
            CurrencyCode::PES => "PES"@,
            CurrencyCode::PGK => "PGK"@,
            CurrencyCode::PHP => "PHP"@,
            CurrencyCode::PKR => "PKR"@,
            CurrencyCode::PLN => "PLN"@,
            CurrencyCode::PLZ => "PLZ"@,
            CurrencyCode::PTE => "PTE"@,
            CurrencyCode::PYG => "PYG"@,
            CurrencyCode::QAR => "QAR"@,
            CurrencyCode::RHD => "RHD"@,
            CurrencyCode::ROK => "ROK"@,
            CurrencyCode::ROL => "ROL"@,
            CurrencyCode::RON => "RON"@,
            CurrencyCode::RSD => "RSD"@,
            CurrencyCode::RUB => "RUB"@,
            CurrencyCode::RUR => "RUR"@,
            CurrencyCode::RWF => "RWF"@,
            CurrencyCode::SAR => "SAR"@,
            CurrencyCode::SBD => "SBD"@,
            CurrencyCode::SCR => "SCR"@,
            CurrencyCode::SDD => "SDD"@,
            CurrencyCode::SDG => "SDG"@,
            CurrencyCode::SDP => "SDP"@,
            CurrencyCode::SEK => "SEK"@,
            CurrencyCode::SGD => "SGD"@,
            CurrencyCode::SHP => "SHP"@,
            CurrencyCode::SIT => "SIT"@,
            CurrencyCode::SKK => "SKK"@,
            CurrencyCode::SLL => "SLL"@,
            CurrencyCode::SOS => "SOS"@,
            CurrencyCode::SRD => "SRD"@,
            CurrencyCode::SRG => "SRG"@,
            CurrencyCode::SSP => "SSP"@,
            CurrencyCode::STD => "STD"@,
            CurrencyCode::STN => "STN"@,
            CurrencyCode::SUR => "SUR"@,
            CurrencyCode::SVC => "SVC"@,
            CurrencyCode::SYP => "SYP"@,
            CurrencyCode::SZL => "SZL"@,
            CurrencyCode::THB => "THB"@,
            CurrencyCode::TJR => "TJR"@,
            CurrencyCode::TJS => "TJS"@,
            CurrencyCode::TMM => "TMM"@,
            CurrencyCode::TMT => "TMT"@,
            CurrencyCode::TND => "TND"@,
            CurrencyCode::TOP => "TOP"@,
            CurrencyCode::TPE => "TPE"@,
            CurrencyCode::TRL => "TRL"@,
            CurrencyCode::TRY => "TRY"@,
            CurrencyCode::TTD => "TTD"@,
            CurrencyCode::TWD => "TWD"@,
            CurrencyCode::TZS => "TZS"@,
            CurrencyCode::UAH => "UAH"@,
            CurrencyCode::UAK => "UAK"@,
            CurrencyCode::UGS => "UGS"@,
            CurrencyCode::UGW => "UGW"@,
            CurrencyCode::UGX => "UGX"@,
            CurrencyCode::USD => "USD"@,
            CurrencyCode::USN => "USN"@,
            CurrencyCode::USS => "USS"@,
            CurrencyCode::UYI => "UYI"@,
            CurrencyCode::UYN => "UYN"@,
            CurrencyCode::UYP => "UYP"@,
            CurrencyCode::UYU => "UYU"@,
            CurrencyCode::UYW => "UYW"@,
            CurrencyCode::UZS => "UZS"@,
            CurrencyCode::VEB => "VEB"@,
            CurrencyCode::VEF => "VEF"@,
            CurrencyCode::VES => "VES"@,
            CurrencyCode::VNC => "VNC"@,
            CurrencyCode::VND => "VND"@,
            CurrencyCode::VUV => "VUV"@,
            CurrencyCode::WST => "WST"@,
            CurrencyCode::XAF => "XAF"@,
            CurrencyCode::XAG => "XAG"@,
            CurrencyCode::XAU => "XAU"@,
            CurrencyCode::XBA => "XBA"@,
            CurrencyCode::XBB => "XBB"@,
            CurrencyCode::XBC => "XBC"@,
            CurrencyCode::XBD => "XBD"@,
            CurrencyCode::XCD => "XCD"@,
            CurrencyCode::XDR => "XDR"@,
            CurrencyCode::XEU => "XEU"@,
            CurrencyCode::XFO => "XFO"@,
            CurrencyCode::XFU => "XFU"@,
            CurrencyCode::XOF => "XOF"@,
            CurrencyCode::XPD => "XPD"@,
            CurrencyCode::XPF => "XPF"@,
            CurrencyCode::XPT => "XPT"@,
            CurrencyCode::XRE => "XRE"@,
            CurrencyCode::XSU => "XSU"@,
            CurrencyCode::XTS => "XTS"@,
            CurrencyCode::XUA => "XUA"@,
            CurrencyCode::XXX => "XXX"@,
            CurrencyCode::YDD => "YDD"@,
            CurrencyCode::YER => "YER"@,
            CurrencyCode::YUD => "YUD"@,
            CurrencyCode::YUM => "YUM"@,
            CurrencyCode::YUN => "YUN"@,
            CurrencyCode::ZAL => "ZAL"@,
            CurrencyCode::ZAR => "ZAR"@,
            CurrencyCode::ZMK => "ZMK"@,
            CurrencyCode::ZMW => "ZMW"@,
            CurrencyCode::ZRN => "ZRN"@,
            CurrencyCode::ZRZ => "ZRZ"@,
            CurrencyCode::ZWC => "ZWC"@,
            CurrencyCode::ZWD => "ZWD"@,
            CurrencyCode::ZWL => "ZWL"@,
            CurrencyCode::ZWN => "ZWN"@,
            CurrencyCode::ZWR => "ZWR"@,
            CurrencyCode::Other(_) => Seq::empty(),
        }
    }

    /// Renders the wire name.
    pub fn name_str(&self) -> (r: String)
        requires
            self.is_concrete(),
        ensures
            r@ == self.spec_name(),
    {
        match self {
            CurrencyCode::ADP => String::from_str("ADP"),
            CurrencyCode::AED => String::from_str("AED"),
            CurrencyCode::AFA => String::from_str("AFA"),
            CurrencyCode::AFN => String::from_str("AFN"),
            CurrencyCode::ALK => String::from_str("ALK"),
            CurrencyCode::ALL => String::from_str("ALL"),
            CurrencyCode::AMD => String::from_str("AMD"),
            CurrencyCode::ANG => String::from_str("ANG"),
            CurrencyCode::AOA => String::from_str("AOA"),
            CurrencyCode::AOK => String::from_str("AOK"),
            CurrencyCode::AON => String::from_str("AON"),
            CurrencyCode::AOR => String::from_str("AOR"),
            CurrencyCode::ARA => String::from_str("ARA"),
            CurrencyCode::ARP => String::from_str("ARP"),
            CurrencyCode::ARS => String::from_str("ARS"),
            CurrencyCode::ARY => String::from_str("ARY"),
            CurrencyCode::ATS => String::from_str("ATS"),
            CurrencyCode::AUD => String::from_str("AUD"),
            CurrencyCode::AWG => String::from_str("AWG"),
            CurrencyCode::AYM => String::from_str("AYM"),
            CurrencyCode::AZM => String::from_str("AZM"),
            CurrencyCode::AZN => String::from_str("AZN"),
            CurrencyCode::BAD => String::from_str("BAD"),
            CurrencyCode::BAM => String::from_str("BAM"),
            CurrencyCode::BBD => String::from_str("BBD"),
            CurrencyCode::BDT => String::from_str("BDT"),
            CurrencyCode::BEC => String::from_str("BEC"),
            CurrencyCode::BEF => String::from_str("BEF"),
            CurrencyCode::BEL => String::from_str("BEL"),
            CurrencyCode::BGJ => String::from_str("BGJ"),
            CurrencyCode::BGK => String::from_str("BGK"),
            CurrencyCode::BGL => String::from_str("BGL"),
            CurrencyCode::BGN => String::from_str("BGN"),
            CurrencyCode::BHD => String::from_str("BHD"),
            CurrencyCode::BIF => String::from_str("BIF"),
            CurrencyCode::BMD => String::from_str("BMD"),
            CurrencyCode::BND => String::from_str("BND"),
            CurrencyCode::BOB => String::from_str("BOB"),
            CurrencyCode::BOP => String::from_str("BOP"),
            CurrencyCode::BOV => String::from_str("BOV"),
            CurrencyCode::BRB => String::from_str("BRB"),
            CurrencyCode::BRC => String::from_str("BRC"),
            CurrencyCode::BRE => String::from_str("BRE"),
            CurrencyCode::BRL => String::from_str("BRL"),
            CurrencyCode::BRN => String::from_str("BRN"),
            CurrencyCode::BRR => String::from_str("BRR"),
            CurrencyCode::BSD => String::from_str("BSD"),
            CurrencyCode::BTN => String::from_str("BTN"),
            CurrencyCode::BUK => String::from_str("BUK"),
            CurrencyCode::BWP => String::from_str("BWP"),
            CurrencyCode::BYB => String::from_str("BYB"),
            CurrencyCode::BYN => String::from_str("BYN"),
            CurrencyCode::BYR => String::from_str("BYR"),
            CurrencyCode::BZD => String::from_str("BZD"),
            CurrencyCode::CAD => String::from_str("CAD"),
            CurrencyCode::CDF => String::from_str("CDF"),
            CurrencyCode::CHC => String::from_str("CHC"),
            CurrencyCode::CHE => String::from_str("CHE"),
            CurrencyCode::CHF => String::from_str("CHF"),
            CurrencyCode::CHW => String::from_str("CHW"),
            CurrencyCode::CLF => String::from_str("CLF"),
            CurrencyCode::CLP => String::from_str("CLP"),
            CurrencyCode::CNY => String::from_str("CNY"),
            CurrencyCode::COP => String::from_str("COP"),
            CurrencyCode::COU => String::from_str("COU"),
            CurrencyCode::CRC => String::from_str("CRC"),
            CurrencyCode::CSD => String::from_str("CSD"),
            CurrencyCode::CSJ => String::from_str("CSJ"),
            CurrencyCode::CSK => String::from_str("CSK"),
            CurrencyCode::CUC => String::from_str("CUC"),
            CurrencyCode::CUP => String::from_str("CUP"),
            CurrencyCode::CVE => String::from_str("CVE"),
            CurrencyCode::CYP => String::from_str("CYP"),
            CurrencyCode::CZK => String::from_str("CZK"),
            CurrencyCode::DDM => String::from_str("DDM"),
            CurrencyCode::DEM => String::from_str("DEM"),
            CurrencyCode::DJF => String::from_str("DJF"),
            CurrencyCode::DKK => String::from_str("DKK"),
            CurrencyCode::DOP => String::from_str("DOP"),
            CurrencyCode::DZD => String::from_str("DZD"),
            CurrencyCode::ECS => String::from_str("ECS"),
            CurrencyCode::ECV => String::from_str("ECV"),
            CurrencyCode::EEK => String::from_str("EEK"),
            CurrencyCode::EGP => String::from_str("EGP"),
            CurrencyCode::ERN => String::from_str("ERN"),
            CurrencyCode::ESA => String::from_str("ESA"),
            CurrencyCode::ESB => String::from_str("ESB"),
            CurrencyCode::ESP => String::from_str("ESP"),
            CurrencyCode::ETB => String::from_str("ETB"),
            CurrencyCode::EUR => String::from_str("EUR"),
            CurrencyCode::FIM => String::from_str("FIM"),
            CurrencyCode::FJD => String::from_str("FJD"),
            CurrencyCode::FKP => String::from_str("FKP"),
            CurrencyCode::FRF => String::from_str("FRF"),
            CurrencyCode::GBP => String::from_str("GBP"),
            CurrencyCode::GEK => String::from_str("GEK"),
            CurrencyCode::GEL => String::from_str("GEL"),
            CurrencyCode::GHC => String::from_str("GHC"),
            CurrencyCode::GHP => String::from_str("GHP"),
            CurrencyCode::GHS => String::from_str("GHS"),
            CurrencyCode::GIP => String::from_str("GIP"),
            CurrencyCode::GMD => String::from_str("GMD"),
            CurrencyCode::GNE => String::from_str("GNE"),
            CurrencyCode::GNF => String::from_str("GNF"),
            CurrencyCode::GNS => String::from_str("GNS"),
            CurrencyCode::GQE => String::from_str("GQE"),
            CurrencyCode::GRD => String::from_str("GRD"),
            CurrencyCode::GTQ => String::from_str("GTQ"),
            CurrencyCode::GWE => String::from_str("GWE"),
            CurrencyCode::GWP => String::from_str("GWP"),
            CurrencyCode::GYD => String::from_str("GYD"),
            CurrencyCode::HKD => String::from_str("HKD"),
            CurrencyCode::HNL => String::from_str("HNL"),
            CurrencyCode::HRD => String::from_str("HRD"),
            CurrencyCode::HRK => String::from_str("HRK"),
            CurrencyCode::HTG => String::from_str("HTG"),
            CurrencyCode::HUF => String::from_str("HUF"),
            CurrencyCode::IDR => String::from_str("IDR"),
            CurrencyCode::IEP => String::from_str("IEP"),
            CurrencyCode::ILP => String::from_str("ILP"),
            CurrencyCode::ILR => String::from_str("ILR"),
            CurrencyCode::ILS => String::from_str("ILS"),
            CurrencyCode::INR => String::from_str("INR"),
            CurrencyCode::IQD => String::from_str("IQD"),
            CurrencyCode::IRR => String::from_str("IRR"),
            CurrencyCode::ISJ => String::from_str("ISJ"),
            CurrencyCode::ISK => String::from_str("ISK"),
            CurrencyCode::ITL => String::from_str("ITL"),
            CurrencyCode::JMD => String::from_str("JMD"),
            CurrencyCode::JOD => String::from_str("JOD"),
            CurrencyCode::JPY => String::from_str("JPY"),
            CurrencyCode::KES => String::from_str("KES"),
            CurrencyCode::KGS => String::from_str("KGS"),
            CurrencyCode::KHR => String::from_str("KHR"),
            CurrencyCode::KMF => String::from_str("KMF"),
            CurrencyCode::KPW => String::from_str("KPW"),
            CurrencyCode::KRW => String::from_str("KRW"),
            CurrencyCode::KWD => String::from_str("KWD"),
            CurrencyCode::KYD => String::from_str("KYD"),
            CurrencyCode::KZT => String::from_str("KZT"),
            CurrencyCode::LAJ => String::from_str("LAJ"),
            CurrencyCode::LAK => String::from_str("LAK"),
            CurrencyCode::LBP => String::from_str("LBP"),
            CurrencyCode::LKR => String::from_str("LKR"),
            CurrencyCode::LRD => String::from_str("LRD"),
            CurrencyCode::LSL => String::from_str("LSL"),
            CurrencyCode::LSM => String::from_str("LSM"),
            CurrencyCode::LTL => String::from_str("LTL"),
            CurrencyCode::LTT => String::from_str("LTT"),
            CurrencyCode::LUC => String::from_str("LUC"),
            CurrencyCode::LUF => String::from_str("LUF"),
            CurrencyCode::LUL => String::from_str("LUL"),
            CurrencyCode::LVL => String::from_str("LVL"),
            CurrencyCode::LVR => String::from_str("LVR"),
            CurrencyCode::LYD => String::from_str("LYD"),
            CurrencyCode::MAD => String::from_str("MAD"),
            CurrencyCode::MDL => String::from_str("MDL"),
            CurrencyCode::MGA => String::from_str("MGA"),
            CurrencyCode::MGF => String::from_str("MGF"),
            CurrencyCode::MKD => String::from_str("MKD"),
            CurrencyCode::MLF => String::from_str("MLF"),
            CurrencyCode::MMK => String::from_str("MMK"),
            CurrencyCode::MNT => String::from_str("MNT"),
            CurrencyCode::MOP => String::from_str("MOP"),
            CurrencyCode::MRO => String::from_str("MRO"),
            CurrencyCode::MRU => String::from_str("MRU"),
            CurrencyCode::MTL => String::from_str("MTL"),
            CurrencyCode::MTP => String::from_str("MTP"),
            CurrencyCode::MUR => String::from_str("MUR"),
            CurrencyCode::MVQ => String::from_str("MVQ"),
            CurrencyCode::MVR => String::from_str("MVR"),
            CurrencyCode::MWK => String::from_str("MWK"),
            CurrencyCode::MXN => String::from_str("MXN"),
            CurrencyCode::MXP => String::from_str("MXP"),
            CurrencyCode::MXV => String::from_str("MXV"),
            CurrencyCode::MYR => String::from_str("MYR"),
            CurrencyCode::MZE => String::from_str("MZE"),
            CurrencyCode::MZM => String::from_str("MZM"),
            CurrencyCode::MZN => String::from_str("MZN"),
            CurrencyCode::NAD => String::from_str("NAD"),
            CurrencyCode::NGN => String::from_str("NGN"),
            CurrencyCode::NIC => String::from_str("NIC"),
            CurrencyCode::NIO => String::from_str("NIO"),
            CurrencyCode::NLG => String::from_str("NLG"),
            CurrencyCode::NOK => String::from_str("NOK"),
            CurrencyCode::NPR => String::from_str("NPR"),
            CurrencyCode::NZD => String::from_str("NZD"),
            CurrencyCode::OMR => String::from_str("OMR"),
            CurrencyCode::PAB => String::from_str("PAB"),
            CurrencyCode::PEH => String::from_str("PEH"),
            CurrencyCode::PEI => String::from_str("PEI"),
            CurrencyCode::PEN => String::from_str("PEN"),
            CurrencyCode::PES => String::from_str("PES"),
            CurrencyCode::PGK => String::from_str("PGK"),
            CurrencyCode::PHP => String::from_str("PHP"),
            CurrencyCode::PKR => String::from_str("PKR"),
            CurrencyCode::PLN => String::from_str("PLN"),
            CurrencyCode::PLZ => String::from_str("PLZ"),
            CurrencyCode::PTE => String::from_str("PTE"),
            CurrencyCode::PYG => String::from_str("PYG"),
            CurrencyCode::QAR => String::from_str("QAR"),
            CurrencyCode::RHD => String::from_str("RHD"),
            CurrencyCode::ROK => String::from_str("ROK"),
            CurrencyCode::ROL => String::from_str("ROL"),
            CurrencyCode::RON => String::from_str("RON"),
            CurrencyCode::RSD => String::from_str("RSD"),
            CurrencyCode::RUB => String::from_str("RUB"),
            CurrencyCode::RUR => String::from_str("RUR"),
            CurrencyCode::RWF => String::from_str("RWF"),
            CurrencyCode::SAR => String::from_str("SAR"),
            CurrencyCode::SBD => String::from_str("SBD"),
            CurrencyCode::SCR => String::from_str("SCR"),
            CurrencyCode::SDD => String::from_str("SDD"),
            CurrencyCode::SDG => String::from_str("SDG"),
            CurrencyCode::SDP => String::from_str("SDP"),
            CurrencyCode::SEK => String::from_str("SEK"),
            CurrencyCode::SGD => String::from_str("SGD"),
            CurrencyCode::SHP => String::from_str("SHP"),
            CurrencyCode::SIT => String::from_str("SIT"),
            CurrencyCode::SKK => String::from_str("SKK"),
            CurrencyCode::SLL => String::from_str("SLL"),
            CurrencyCode::SOS => String::from_str("SOS"),
            CurrencyCode::SRD => String::from_str("SRD"),
            CurrencyCode::SRG => String::from_str("SRG"),
            CurrencyCode::SSP => String::from_str("SSP"),
            CurrencyCode::STD => String::from_str("STD"),
            CurrencyCode::STN => String::from_str("STN"),
            CurrencyCode::SUR => String::from_str("SUR"),
            CurrencyCode::SVC => String::from_str("SVC"),
            CurrencyCode::SYP => String::from_str("SYP"),
            CurrencyCode::SZL => String::from_str("SZL"),
            CurrencyCode::THB => String::from_str("THB"),
            CurrencyCode::TJR => String::from_str("TJR"),
            CurrencyCode::TJS => String::from_str("TJS"),
            CurrencyCode::TMM => String::from_str("TMM"),
            CurrencyCode::TMT => String::from_str("TMT"),
            CurrencyCode::TND => String::from_str("TND"),
            CurrencyCode::TOP => String::from_str("TOP"),
            CurrencyCode::TPE => String::from_str("TPE"),
            CurrencyCode::TRL => String::from_str("TRL"),
            CurrencyCode::TRY => String::from_str("TRY"),
            CurrencyCode::TTD => String::from_str("TTD"),
            CurrencyCode::TWD => String::from_str("TWD"),
            CurrencyCode::TZS => String::from_str("TZS"),
            CurrencyCode::UAH => String::from_str("UAH"),
            CurrencyCode::UAK => String::from_str("UAK"),
            CurrencyCode::UGS => String::from_str("UGS"),
            CurrencyCode::UGW => String::from_str("UGW"),
            CurrencyCode::UGX => String::from_str("UGX"),
            CurrencyCode::USD => String::from_str("USD"),
            CurrencyCode::USN => String::from_str("USN"),
            CurrencyCode::USS => String::from_str("USS"),
            CurrencyCode::UYI => String::from_str("UYI"),
            CurrencyCode::UYN => String::from_str("UYN"),
            CurrencyCode::UYP => String::from_str("UYP"),
            CurrencyCode::UYU => String::from_str("UYU"),
            CurrencyCode::UYW => String::from_str("UYW"),
            CurrencyCode::UZS => String::from_str("UZS"),
            CurrencyCode::VEB => String::from_str("VEB"),
            CurrencyCode::VEF => String::from_str("VEF"),
            CurrencyCode::VES => String::from_str("VES"),
            CurrencyCode::VNC => String::from_str("VNC"),
            CurrencyCode::VND => String::from_str("VND"),
            CurrencyCode::VUV => String::from_str("VUV"),
            CurrencyCode::WST => String::from_str("WST"),
            CurrencyCode::XAF => String::from_str("XAF"),
            CurrencyCode::XAG => String::from_str("XAG"),
            CurrencyCode::XAU => String::from_str("XAU"),
            CurrencyCode::XBA => String::from_str("XBA"),
            CurrencyCode::XBB => String::from_str("XBB"),
            CurrencyCode::XBC => String::from_str("XBC"),
            CurrencyCode::XBD => String::from_str("XBD"),
            CurrencyCode::XCD => String::from_str("XCD"),
            CurrencyCode::XDR => String::from_str("XDR"),
            CurrencyCode::XEU => String::from_str("XEU"),
            CurrencyCode::XFO => String::from_str("XFO"),
            CurrencyCode::XFU => String::from_str("XFU"),
            CurrencyCode::XOF => String::from_str("XOF"),
            CurrencyCode::XPD => String::from_str("XPD"),
            CurrencyCode::XPF => String::from_str("XPF"),
            CurrencyCode::XPT => String::from_str("XPT"),
            CurrencyCode::XRE => String::from_str("XRE"),
            CurrencyCode::XSU => String::from_str("XSU"),
            CurrencyCode::XTS => String::from_str("XTS"),
            CurrencyCode::XUA => String::from_str("XUA"),
            CurrencyCode::XXX => String::from_str("XXX"),
            CurrencyCode::YDD => String::from_str("YDD"),
            CurrencyCode::YER => String::from_str("YER"),
            CurrencyCode::YUD => String::from_str("YUD"),
            CurrencyCode::YUM => String::from_str("YUM"),
            CurrencyCode::YUN => String::from_str("YUN"),
            CurrencyCode::ZAL => String::from_str("ZAL"),
            CurrencyCode::ZAR => String::from_str("ZAR"),
            CurrencyCode::ZMK => String::from_str("ZMK"),
            CurrencyCode::ZMW => String::from_str("ZMW"),
            CurrencyCode::ZRN => String::from_str("ZRN"),
            CurrencyCode::ZRZ => String::from_str("ZRZ"),
            CurrencyCode::ZWC => String::from_str("ZWC"),
            CurrencyCode::ZWD => String::from_str("ZWD"),
            CurrencyCode::ZWL => String::from_str("ZWL"),
            CurrencyCode::ZWN => String::from_str("ZWN"),
            CurrencyCode::ZWR => String::from_str("ZWR"),
            CurrencyCode::Other(_) => String::new(),
        }
    }
}
/// The publisher that owns an imprint.
#[derive(Clone, Debug, PartialEq)]
pub struct WorkImprintPublisher {
    pub publisher_name: String,
    pub publisher_url: Option<String>,
}

/// The imprint a work appears under.
#[derive(Clone, Debug, PartialEq)]
pub struct WorkImprint {
    pub imprint_name: String,
    pub publisher: WorkImprintPublisher,
}

/// The contributor record behind a contribution.
#[derive(Clone, Debug, PartialEq)]
pub struct WorkContributionsContributor {
    pub orcid: Option<Orcid>,
}

/// The institution of an affiliation.
#[derive(Clone, Debug, PartialEq)]
pub struct WorkContributionsAffiliationsInstitution {
    pub institution_name: String,
}

/// An affiliation a contributor held for a contribution.
#[derive(Clone, Debug, PartialEq)]
pub struct WorkContributionsAffiliations {
    pub position: Option<String>,
    pub affiliation_ordinal: i64,
    pub institution: WorkContributionsAffiliationsInstitution,
}

/// One person's contribution to a work.
#[derive(Clone, Debug, PartialEq)]
pub struct WorkContributions {
    pub contribution_type: ContributionType,
    pub first_name: Option<String>,
    pub last_name: String,
    pub full_name: String,
    pub main_contribution: bool,
    pub biography: Option<String>,
    pub contribution_ordinal: i64,
    pub contributor: WorkContributionsContributor,
    pub affiliations: Vec<WorkContributionsAffiliations>,
}

impl WorkContributions {
    /// The contribution's enumerations lie in their closed code lists.
    pub open spec fn wf(self) -> bool {
        self.contribution_type.is_concrete()
    }
}

/// The series an issue belongs to.
#[derive(Clone, Debug, PartialEq)]
pub struct WorkIssuesSeries {
    pub series_type: SeriesType,
    pub series_name: String,
    pub issn_print: String,
    pub issn_digital: String,
    pub series_url: Option<String>,
}

/// A work's place within a series.
#[derive(Clone, Debug, PartialEq)]
pub struct WorkIssues {
    pub issue_ordinal: i64,
    pub series: WorkIssuesSeries,
}

impl WorkIssues {
    /// The issue's enumerations lie in their closed code lists.
    pub open spec fn wf(self) -> bool {
        self.series.series_type.is_concrete()
    }
}

/// A language the text of a work stands in, by its wire code
/// (an ISO 639 code such as `SPA`).
#[derive(Clone, Debug, PartialEq)]
pub struct WorkLanguages {
    pub language_code: String,
    pub language_relation: LanguageRelation,
    pub main_language: bool,
}

impl WorkLanguages {
    /// The language's enumerations lie in their closed code lists.
    pub open spec fn wf(self) -> bool {
        self.language_relation.is_concrete()
    }
}

/// A price point of a publication, in minor units (hundredths) of its
/// currency.
#[derive(Clone, Debug, PartialEq)]
pub struct WorkPublicationsPrices {
    pub currency_code: CurrencyCode,
    pub unit_price: u64,
}

impl WorkPublicationsPrices {
    /// The price's currency lies in the closed code list.
    pub open spec fn wf(self) -> bool {
        self.currency_code.is_concrete()
    }
}

/// One access point of a publication.
#[derive(Clone, Debug, PartialEq)]
pub struct WorkPublicationsLocations {
    pub landing_page: Option<String>,
    pub full_text_url: Option<String>,
    pub location_platform: LocationPlatform,
    pub canonical: bool,
}

impl WorkPublicationsLocations {
    /// The location's platform lies in the closed code list.
    pub open spec fn wf(self) -> bool {
        self.location_platform.is_concrete()
    }
}

/// One format a work is published in.
#[derive(Clone, Debug, PartialEq)]
pub struct WorkPublications {
    pub publication_id: String,
    pub publication_type: PublicationType,
    pub isbn: Option<Isbn>,
    pub prices: Vec<WorkPublicationsPrices>,
    pub locations: Vec<WorkPublicationsLocations>,
}

/// At most one location of a list is canonical: the upstream data
/// layer enforces a single primary access point per publication.
pub open spec fn spec_at_most_one_canonical(locs: Seq<WorkPublicationsLocations>) -> bool {
    forall|i: int, j: int|
        0 <= i < j < locs.len() ==> !((#[trigger] locs[i]).canonical && (
        #[trigger] locs[j]).canonical)
}

impl WorkPublications {
    /// The publication's enumerations lie in their closed code lists,
    /// down to every price and location; an ISBN, where present, has
    /// at least one digit once its hyphens are stripped; and at most
    /// one location is canonical.
    pub open spec fn wf(self) -> bool {
        &&& self.publication_type.is_concrete()
        &&& (self.isbn matches Option::Some(i) ==> crate::text::spec_no_hyphens(i@).len() > 0)
        &&& forall|i: int| 0 <= i < self.prices@.len() ==> (#[trigger] self.prices@[i]).wf()
        &&& forall|i: int| 0 <= i < self.locations@.len() ==> (#[trigger] self.locations@[i]).wf()
        &&& spec_at_most_one_canonical(self.locations@)
    }
}

/// A subject classification of a work.
#[derive(Clone, Debug, PartialEq)]
pub struct WorkSubjects {
    pub subject_code: String,
    pub subject_type: SubjectType,
    pub subject_ordinal: i64,
}

impl WorkSubjects {
    /// The subject's scheme lies in the closed code list.
    pub open spec fn wf(self) -> bool {
        self.subject_type.is_concrete()
    }
}

/// The institution behind a funding, with its identifiers and country
/// (an ISO 3166 code such as `MDA`).
#[derive(Clone, Debug, PartialEq)]
pub struct WorkFundingsInstitution {
    pub institution_name: String,
    pub institution_doi: Option<Doi>,
    pub ror: Option<Ror>,
    pub country_code: Option<String>,
}

/// A grant or programme that funded a work.
#[derive(Clone, Debug, PartialEq)]
pub struct WorkFundings {
    pub program: Option<String>,
    pub project_name: Option<String>,
    pub project_shortname: Option<String>,
    pub grant_number: Option<String>,
    pub jurisdiction: Option<String>,
    pub institution: WorkFundingsInstitution,
}

/// A fully populated work: one publishable title and every nested
/// record the exporter reads.
#[derive(Clone, Debug, PartialEq)]
pub struct Work {
    pub work_id: String,
    pub work_status: WorkStatus,
    pub full_title: String,
    pub title: String,
    pub subtitle: Option<String>,
    pub work_type: WorkType,
    pub edition: i64,
    pub doi: Option<Doi>,
    pub publication_date: Option<Date>,
    pub license: Option<String>,
    pub copyright_holder: String,
    pub short_abstract: Option<String>,
    pub long_abstract: Option<String>,
    pub general_note: Option<String>,
    pub place: Option<String>,
    pub width_mm: Option<String>,
    pub width_cm: Option<String>,
    pub width_in: Option<String>,
    pub height_mm: Option<String>,
    pub height_cm: Option<String>,
    pub height_in: Option<String>,
    pub page_count: Option<i64>,
    pub page_breakdown: Option<String>,
    pub image_count: Option<i64>,
    pub table_count: Option<i64>,
    pub audio_count: Option<i64>,
    pub video_count: Option<i64>,
    pub landing_page: Option<String>,
    pub toc: Option<String>,
    pub lccn: Option<String>,
    pub oclc: Option<String>,
    pub cover_url: Option<String>,
    pub cover_caption: Option<String>,
    pub imprint: WorkImprint,
    pub issues: Vec<WorkIssues>,
    pub contributions: Vec<WorkContributions>,
    pub languages: Vec<WorkLanguages>,
    pub publications: Vec<WorkPublications>,
    pub subjects: Vec<WorkSubjects>,
    pub fundings: Vec<WorkFundings>,
}

impl Work {
    /// Every enumeration in the aggregate lies in its closed code list
    /// and every date lies in the calendar ranges.  Upstream data
    /// validation owes this to the exporter: a catch-all value must
    /// never reach a production feed.
    pub open spec fn wf(self) -> bool {
        &&& self.work_status.is_concrete()
        &&& self.work_type.is_concrete()
        &&& self.contributions@.len() < 1000000000
        &&& (self.publication_date matches Some(d) ==> d.wf())
        &&& forall|i: int| 0 <= i < self.issues@.len() ==> (#[trigger] self.issues@[i]).wf()
        &&& forall|i: int|
            0 <= i < self.contributions@.len() ==> (#[trigger] self.contributions@[i]).wf()
        &&& forall|i: int| 0 <= i < self.languages@.len() ==> (#[trigger] self.languages@[i]).wf()
        &&& forall|i: int|
            0 <= i < self.publications@.len() ==> (#[trigger] self.publications@[i]).wf()
        &&& forall|i: int| 0 <= i < self.subjects@.len() ==> (#[trigger] self.subjects@[i]).wf()
    }
}

} // verus!
