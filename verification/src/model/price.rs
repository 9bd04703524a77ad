//! The price table's enumerations: the ISO 4217 currency list and the sort field.

use vstd::prelude::*;

use crate::errors::ThothError;
use crate::text::str_eq;

verus! {

/// An ISO 4217 currency.
#[derive(Clone, Debug, PartialEq)]
pub enum CurrencyCode {
    Adp,
    Aed,
    Afa,
    Afn,
    Alk,
    All,
    Amd,
    Ang,
    Aoa,
    Aok,
    Aon,
    Aor,
    Ara,
    Arp,
    Ars,
    Ary,
    Ats,
    Aud,
    Awg,
    Aym,
    Azm,
    Azn,
    Bad,
    Bam,
    Bbd,
    Bdt,
    Bec,
    Bef,
    Bel,
    Bgj,
    Bgk,
    Bgl,
    Bgn,
    Bhd,
    Bif,
    Bmd,
    Bnd,
    Bob,
    Bop,
    Bov,
    Brb,
    Brc,
    Bre,
    Brl,
    Brn,
    Brr,
    Bsd,
    Btn,
    Buk,
    Bwp,
    Byb,
    Byn,
    Byr,
    Bzd,
    Cad,
    Cdf,
    Chc,
    Che,
    Chf,
    Chw,
    Clf,
    Clp,
    Cny,
    Cop,
    Cou,
    Crc,
    Csd,
    Csj,
    Csk,
    Cuc,
    Cup,
    Cve,
    Cyp,
    Czk,
    Ddm,
    Dem,
    Djf,
    Dkk,
    Dop,
    Dzd,
    Ecs,
    Ecv,
    Eek,
    Egp,
    Ern,
    Esa,
    Esb,
    Esp,
    Etb,
    Eur,
    Fim,
    Fjd,
    Fkp,
    Frf,
    Gbp,
    Gek,
    Gel,
    Ghc,
    Ghp,
    Ghs,
    Gip,
    Gmd,
    Gne,
    Gnf,
    Gns,
    Gqe,
    Grd,
    Gtq,
    Gwe,
    Gwp,
    Gyd,
    Hkd,
    Hnl,
    Hrd,
    Hrk,
    Htg,
    Huf,
    Idr,
    Iep,
    Ilp,
    Ilr,
    Ils,
    Inr,
    Iqd,
    Irr,
    Isj,
    Isk,
    Itl,
    Jmd,
    Jod,
    Jpy,
    Kes,
    Kgs,
    Khr,
    Kmf,
    Kpw,
    Krw,
    Kwd,
    Kyd,
    Kzt,
    Laj,
    Lak,
    Lbp,
    Lkr,
    Lrd,
    Lsl,
    Lsm,
    Ltl,
    Ltt,
    Luc,
    Luf,
    Lul,
    Lvl,
    Lvr,
    Lyd,
    Mad,
    Mdl,
    Mga,
    Mgf,
    Mkd,
    Mlf,
    Mmk,
    Mnt,
    Mop,
    Mro,
    Mru,
    Mtl,
    Mtp,
    Mur,
    Mvq,
    Mvr,
    Mwk,
    Mxn,
    Mxp,
    Mxv,
    Myr,
    Mze,
    Mzm,
    Mzn,
    Nad,
    Ngn,
    Nic,
    Nio,
    Nlg,
    Nok,
    Npr,
    Nzd,
    Omr,
    Pab,
    Peh,
    Pei,
    Pen,
    Pes,
    Pgk,
    Php,
    Pkr,
    Pln,
    Plz,
    Pte,
    Pyg,
    Qar,
    Rhd,
    Rok,
    Rol,
    Ron,
    Rsd,
    Rub,
    Rur,
    Rwf,
    Sar,
    Sbd,
    Scr,
    Sdd,
    Sdg,
    Sdp,
    Sek,
    Sgd,
    Shp,
    Sit,
    Skk,
    Sll,
    Sos,
    Srd,
    Srg,
    Ssp,
    Std,
    Stn,
    Sur,
    Svc,
    Syp,
    Szl,
    Thb,
    Tjr,
    Tjs,
    Tmm,
    Tmt,
    Tnd,
    Top,
    Tpe,
    Trl,
    Try,
    Ttd,
    Twd,
    Tzs,
    Uah,
    Uak,
    Ugs,
    Ugw,
    Ugx,
    Usd,
    Usn,
    Uss,
    Uyi,
    Uyn,
    Uyp,
    Uyu,
    Uyw,
    Uzs,
    Veb,
    Vef,
    Ves,
    Vnc,
    Vnd,
    Vuv,
    Wst,
    Xaf,
    Xag,
    Xau,
    Xba,
    Xbb,
    Xbc,
    Xbd,
    Xcd,
    Xdr,
    Xeu,
    Xfo,
    Xfu,
    Xof,
    Xpd,
    Xpf,
    Xpt,
    Xre,
    Xsu,
    Xts,
    Xua,
    Xxx,
    Ydd,
    Yer,
    Yud,
    Yum,
    Yun,
    Zal,
    Zar,
    Zmk,
    Zmw,
    Zrn,
    Zrz,
    Zwc,
    Zwd,
    Zwl,
    Zwn,
    Zwr,
}

impl CurrencyCode {
    /// The display string of the variant.
    pub open spec fn spec_to_str(self) -> Seq<char> {
        match self {
            CurrencyCode::Adp => "ADP"@,
            CurrencyCode::Aed => "AED"@,
            CurrencyCode::Afa => "AFA"@,
            CurrencyCode::Afn => "AFN"@,
            CurrencyCode::Alk => "ALK"@,
            CurrencyCode::All => "ALL"@,
            CurrencyCode::Amd => "AMD"@,
            CurrencyCode::Ang => "ANG"@,
            CurrencyCode::Aoa => "AOA"@,
            CurrencyCode::Aok => "AOK"@,
            CurrencyCode::Aon => "AON"@,
            CurrencyCode::Aor => "AOR"@,
            CurrencyCode::Ara => "ARA"@,
            CurrencyCode::Arp => "ARP"@,
            CurrencyCode::Ars => "ARS"@,
            CurrencyCode::Ary => "ARY"@,
            CurrencyCode::Ats => "ATS"@,
            CurrencyCode::Aud => "AUD"@,
            CurrencyCode::Awg => "AWG"@,
            CurrencyCode::Aym => "AYM"@,
            CurrencyCode::Azm => "AZM"@,
            CurrencyCode::Azn => "AZN"@,
            CurrencyCode::Bad => "BAD"@,
            CurrencyCode::Bam => "BAM"@,
            CurrencyCode::Bbd => "BBD"@,
            CurrencyCode::Bdt => "BDT"@,
            CurrencyCode::Bec => "BEC"@,
            CurrencyCode::Bef => "BEF"@,
            CurrencyCode::Bel => "BEL"@,
            CurrencyCode::Bgj => "BGJ"@,
            CurrencyCode::Bgk => "BGK"@,
            CurrencyCode::Bgl => "BGL"@,
            CurrencyCode::Bgn => "BGN"@,
            CurrencyCode::Bhd => "BHD"@,
            CurrencyCode::Bif => "BIF"@,
            CurrencyCode::Bmd => "BMD"@,
            CurrencyCode::Bnd => "BND"@,
            CurrencyCode::Bob => "BOB"@,
            CurrencyCode::Bop => "BOP"@,
            CurrencyCode::Bov => "BOV"@,
            CurrencyCode::Brb => "BRB"@,
            CurrencyCode::Brc => "BRC"@,
            CurrencyCode::Bre => "BRE"@,
            CurrencyCode::Brl => "BRL"@,
            CurrencyCode::Brn => "BRN"@,
            CurrencyCode::Brr => "BRR"@,
            CurrencyCode::Bsd => "BSD"@,
            CurrencyCode::Btn => "BTN"@,
            CurrencyCode::Buk => "BUK"@,
            CurrencyCode::Bwp => "BWP"@,
            CurrencyCode::Byb => "BYB"@,
            CurrencyCode::Byn => "BYN"@,
            CurrencyCode::Byr => "BYR"@,
            CurrencyCode::Bzd => "BZD"@,
            CurrencyCode::Cad => "CAD"@,
            CurrencyCode::Cdf => "CDF"@,
            CurrencyCode::Chc => "CHC"@,
            CurrencyCode::Che => "CHE"@,
            CurrencyCode::Chf => "CHF"@,
            CurrencyCode::Chw => "CHW"@,
            CurrencyCode::Clf => "CLF"@,
            CurrencyCode::Clp => "CLP"@,
            CurrencyCode::Cny => "CNY"@,
            CurrencyCode::Cop => "COP"@,
            CurrencyCode::Cou => "COU"@,
            CurrencyCode::Crc => "CRC"@,
            CurrencyCode::Csd => "CSD"@,
            CurrencyCode::Csj => "CSJ"@,
            CurrencyCode::Csk => "CSK"@,
            CurrencyCode::Cuc => "CUC"@,
            CurrencyCode::Cup => "CUP"@,
            CurrencyCode::Cve => "CVE"@,
            CurrencyCode::Cyp => "CYP"@,
            CurrencyCode::Czk => "CZK"@,
            CurrencyCode::Ddm => "DDM"@,
            CurrencyCode::Dem => "DEM"@,
            CurrencyCode::Djf => "DJF"@,
            CurrencyCode::Dkk => "DKK"@,
            CurrencyCode::Dop => "DOP"@,
            CurrencyCode::Dzd => "DZD"@,
            CurrencyCode::Ecs => "ECS"@,
            CurrencyCode::Ecv => "ECV"@,
            CurrencyCode::Eek => "EEK"@,
            CurrencyCode::Egp => "EGP"@,
            CurrencyCode::Ern => "ERN"@,
            CurrencyCode::Esa => "ESA"@,
            CurrencyCode::Esb => "ESB"@,
            CurrencyCode::Esp => "ESP"@,
            CurrencyCode::Etb => "ETB"@,
            CurrencyCode::Eur => "EUR"@,
            CurrencyCode::Fim => "FIM"@,
            CurrencyCode::Fjd => "FJD"@,
            CurrencyCode::Fkp => "FKP"@,
            CurrencyCode::Frf => "FRF"@,
            CurrencyCode::Gbp => "GBP"@,
            CurrencyCode::Gek => "GEK"@,
            CurrencyCode::Gel => "GEL"@,
            CurrencyCode::Ghc => "GHC"@,
            CurrencyCode::Ghp => "GHP"@,
            CurrencyCode::Ghs => "GHS"@,
            CurrencyCode::Gip => "GIP"@,
            CurrencyCode::Gmd => "GMD"@,
            CurrencyCode::Gne => "GNE"@,
            CurrencyCode::Gnf => "GNF"@,
            CurrencyCode::Gns => "GNS"@,
            CurrencyCode::Gqe => "GQE"@,
            CurrencyCode::Grd => "GRD"@,
            CurrencyCode::Gtq => "GTQ"@,
            CurrencyCode::Gwe => "GWE"@,
            CurrencyCode::Gwp => "GWP"@,
            CurrencyCode::Gyd => "GYD"@,
            CurrencyCode::Hkd => "HKD"@,
            CurrencyCode::Hnl => "HNL"@,
            CurrencyCode::Hrd => "HRD"@,
            CurrencyCode::Hrk => "HRK"@,
            CurrencyCode::Htg => "HTG"@,
            CurrencyCode::Huf => "HUF"@,
            CurrencyCode::Idr => "IDR"@,
            CurrencyCode::Iep => "IEP"@,
            CurrencyCode::Ilp => "ILP"@,
            CurrencyCode::Ilr => "ILR"@,
            CurrencyCode::Ils => "ILS"@,
            CurrencyCode::Inr => "INR"@,
            CurrencyCode::Iqd => "IQD"@,
            CurrencyCode::Irr => "IRR"@,
            CurrencyCode::Isj => "ISJ"@,
            CurrencyCode::Isk => "ISK"@,
            CurrencyCode::Itl => "ITL"@,
            CurrencyCode::Jmd => "JMD"@,
            CurrencyCode::Jod => "JOD"@,
            CurrencyCode::Jpy => "JPY"@,
            CurrencyCode::Kes => "KES"@,
            CurrencyCode::Kgs => "KGS"@,
            CurrencyCode::Khr => "KHR"@,
            CurrencyCode::Kmf => "KMF"@,
            CurrencyCode::Kpw => "KPW"@,
            CurrencyCode::Krw => "KRW"@,
            CurrencyCode::Kwd => "KWD"@,
            CurrencyCode::Kyd => "KYD"@,
            CurrencyCode::Kzt => "KZT"@,
            CurrencyCode::Laj => "LAJ"@,
            CurrencyCode::Lak => "LAK"@,
            CurrencyCode::Lbp => "LBP"@,
            CurrencyCode::Lkr => "LKR"@,
            CurrencyCode::Lrd => "LRD"@,
            CurrencyCode::Lsl => "LSL"@,
            CurrencyCode::Lsm => "LSM"@,
            CurrencyCode::Ltl => "LTL"@,
            CurrencyCode::Ltt => "LTT"@,
            CurrencyCode::Luc => "LUC"@,
            CurrencyCode::Luf => "LUF"@,
            CurrencyCode::Lul => "LUL"@,
            CurrencyCode::Lvl => "LVL"@,
            CurrencyCode::Lvr => "LVR"@,
            CurrencyCode::Lyd => "LYD"@,
            CurrencyCode::Mad => "MAD"@,
            CurrencyCode::Mdl => "MDL"@,
            CurrencyCode::Mga => "MGA"@,
            CurrencyCode::Mgf => "MGF"@,
            CurrencyCode::Mkd => "MKD"@,
            CurrencyCode::Mlf => "MLF"@,
            CurrencyCode::Mmk => "MMK"@,
            CurrencyCode::Mnt => "MNT"@,
            CurrencyCode::Mop => "MOP"@,
            CurrencyCode::Mro => "MRO"@,
            CurrencyCode::Mru => "MRU"@,
            CurrencyCode::Mtl => "MTL"@,
            CurrencyCode::Mtp => "MTP"@,
            CurrencyCode::Mur => "MUR"@,
            CurrencyCode::Mvq => "MVQ"@,
            CurrencyCode::Mvr => "MVR"@,
            CurrencyCode::Mwk => "MWK"@,
            CurrencyCode::Mxn => "MXN"@,
            CurrencyCode::Mxp => "MXP"@,
            CurrencyCode::Mxv => "MXV"@,
            CurrencyCode::Myr => "MYR"@,
            CurrencyCode::Mze => "MZE"@,
            CurrencyCode::Mzm => "MZM"@,
            CurrencyCode::Mzn => "MZN"@,
            CurrencyCode::Nad => "NAD"@,
            CurrencyCode::Ngn => "NGN"@,
            CurrencyCode::Nic => "NIC"@,
            CurrencyCode::Nio => "NIO"@,
            CurrencyCode::Nlg => "NLG"@,
            CurrencyCode::Nok => "NOK"@,
            CurrencyCode::Npr => "NPR"@,
            CurrencyCode::Nzd => "NZD"@,
            CurrencyCode::Omr => "OMR"@,
            CurrencyCode::Pab => "PAB"@,
            CurrencyCode::Peh => "PEH"@,
            CurrencyCode::Pei => "PEI"@,
            CurrencyCode::Pen => "PEN"@,
            CurrencyCode::Pes => "PES"@,
            CurrencyCode::Pgk => "PGK"@,
            CurrencyCode::Php => "PHP"@,
            CurrencyCode::Pkr => "PKR"@,
            CurrencyCode::Pln => "PLN"@,
            CurrencyCode::Plz => "PLZ"@,
            CurrencyCode::Pte => "PTE"@,
            CurrencyCode::Pyg => "PYG"@,
            CurrencyCode::Qar => "QAR"@,
            CurrencyCode::Rhd => "RHD"@,
            CurrencyCode::Rok => "ROK"@,
            CurrencyCode::Rol => "ROL"@,
            CurrencyCode::Ron => "RON"@,
            CurrencyCode::Rsd => "RSD"@,
            CurrencyCode::Rub => "RUB"@,
            CurrencyCode::Rur => "RUR"@,
            CurrencyCode::Rwf => "RWF"@,
            CurrencyCode::Sar => "SAR"@,
            CurrencyCode::Sbd => "SBD"@,
            CurrencyCode::Scr => "SCR"@,
            CurrencyCode::Sdd => "SDD"@,
            CurrencyCode::Sdg => "SDG"@,
            CurrencyCode::Sdp => "SDP"@,
            CurrencyCode::Sek => "SEK"@,
            CurrencyCode::Sgd => "SGD"@,
            CurrencyCode::Shp => "SHP"@,
            CurrencyCode::Sit => "SIT"@,
            CurrencyCode::Skk => "SKK"@,
            CurrencyCode::Sll => "SLL"@,
            CurrencyCode::Sos => "SOS"@,
            CurrencyCode::Srd => "SRD"@,
            CurrencyCode::Srg => "SRG"@,
            CurrencyCode::Ssp => "SSP"@,
            CurrencyCode::Std => "STD"@,
            CurrencyCode::Stn => "STN"@,
            CurrencyCode::Sur => "SUR"@,
            CurrencyCode::Svc => "SVC"@,
            CurrencyCode::Syp => "SYP"@,
            CurrencyCode::Szl => "SZL"@,
            CurrencyCode::Thb => "THB"@,
            CurrencyCode::Tjr => "TJR"@,
            CurrencyCode::Tjs => "TJS"@,
            CurrencyCode::Tmm => "TMM"@,
            CurrencyCode::Tmt => "TMT"@,
            CurrencyCode::Tnd => "TND"@,
            CurrencyCode::Top => "TOP"@,
            CurrencyCode::Tpe => "TPE"@,
            CurrencyCode::Trl => "TRL"@,
            CurrencyCode::Try => "TRY"@,
            CurrencyCode::Ttd => "TTD"@,
            CurrencyCode::Twd => "TWD"@,
            CurrencyCode::Tzs => "TZS"@,
            CurrencyCode::Uah => "UAH"@,
            CurrencyCode::Uak => "UAK"@,
            CurrencyCode::Ugs => "UGS"@,
            CurrencyCode::Ugw => "UGW"@,
            CurrencyCode::Ugx => "UGX"@,
            CurrencyCode::Usd => "USD"@,
            CurrencyCode::Usn => "USN"@,
            CurrencyCode::Uss => "USS"@,
            CurrencyCode::Uyi => "UYI"@,
            CurrencyCode::Uyn => "UYN"@,
            CurrencyCode::Uyp => "UYP"@,
            CurrencyCode::Uyu => "UYU"@,
            CurrencyCode::Uyw => "UYW"@,
            CurrencyCode::Uzs => "UZS"@,
            CurrencyCode::Veb => "VEB"@,
            CurrencyCode::Vef => "VEF"@,
            CurrencyCode::Ves => "VES"@,
            CurrencyCode::Vnc => "VNC"@,
            CurrencyCode::Vnd => "VND"@,
            CurrencyCode::Vuv => "VUV"@,
            CurrencyCode::Wst => "WST"@,
            CurrencyCode::Xaf => "XAF"@,
            CurrencyCode::Xag => "XAG"@,
            CurrencyCode::Xau => "XAU"@,
            CurrencyCode::Xba => "XBA"@,
            CurrencyCode::Xbb => "XBB"@,
            CurrencyCode::Xbc => "XBC"@,
            CurrencyCode::Xbd => "XBD"@,
            CurrencyCode::Xcd => "XCD"@,
            CurrencyCode::Xdr => "XDR"@,
            CurrencyCode::Xeu => "XEU"@,
            CurrencyCode::Xfo => "XFO"@,
            CurrencyCode::Xfu => "XFU"@,
            CurrencyCode::Xof => "XOF"@,
            CurrencyCode::Xpd => "XPD"@,
            CurrencyCode::Xpf => "XPF"@,
            CurrencyCode::Xpt => "XPT"@,
            CurrencyCode::Xre => "XRE"@,
            CurrencyCode::Xsu => "XSU"@,
            CurrencyCode::Xts => "XTS"@,
            CurrencyCode::Xua => "XUA"@,
            CurrencyCode::Xxx => "XXX"@,
            CurrencyCode::Ydd => "YDD"@,
            CurrencyCode::Yer => "YER"@,
            CurrencyCode::Yud => "YUD"@,
            CurrencyCode::Yum => "YUM"@,
            CurrencyCode::Yun => "YUN"@,
            CurrencyCode::Zal => "ZAL"@,
            CurrencyCode::Zar => "ZAR"@,
            CurrencyCode::Zmk => "ZMK"@,
            CurrencyCode::Zmw => "ZMW"@,
            CurrencyCode::Zrn => "ZRN"@,
            CurrencyCode::Zrz => "ZRZ"@,
            CurrencyCode::Zwc => "ZWC"@,
            CurrencyCode::Zwd => "ZWD"@,
            CurrencyCode::Zwl => "ZWL"@,
            CurrencyCode::Zwn => "ZWN"@,
            CurrencyCode::Zwr => "ZWR"@,
        }
    }

    /// Renders the display string.
    pub fn to_str(&self) -> (r: &'static str)
        ensures
            r@ == self.spec_to_str(),
    {
        match self {
            CurrencyCode::Adp => "ADP",
            CurrencyCode::Aed => "AED",
            CurrencyCode::Afa => "AFA",
            CurrencyCode::Afn => "AFN",
            CurrencyCode::Alk => "ALK",
            CurrencyCode::All => "ALL",
            CurrencyCode::Amd => "AMD",
            CurrencyCode::Ang => "ANG",
            CurrencyCode::Aoa => "AOA",
            CurrencyCode::Aok => "AOK",
            CurrencyCode::Aon => "AON",
            CurrencyCode::Aor => "AOR",
            CurrencyCode::Ara => "ARA",
            CurrencyCode::Arp => "ARP",
            CurrencyCode::Ars => "ARS",
            CurrencyCode::Ary => "ARY",
            CurrencyCode::Ats => "ATS",
            CurrencyCode::Aud => "AUD",
            CurrencyCode::Awg => "AWG",
            CurrencyCode::Aym => "AYM",
            CurrencyCode::Azm => "AZM",
            CurrencyCode::Azn => "AZN",
            CurrencyCode::Bad => "BAD",
            CurrencyCode::Bam => "BAM",
            CurrencyCode::Bbd => "BBD",
            CurrencyCode::Bdt => "BDT",
            CurrencyCode::Bec => "BEC",
            CurrencyCode::Bef => "BEF",
            CurrencyCode::Bel => "BEL",
            CurrencyCode::Bgj => "BGJ",
            CurrencyCode::Bgk => "BGK",
            CurrencyCode::Bgl => "BGL",
            CurrencyCode::Bgn => "BGN",
            CurrencyCode::Bhd => "BHD",
            CurrencyCode::Bif => "BIF",
            CurrencyCode::Bmd => "BMD",
            CurrencyCode::Bnd => "BND",
            CurrencyCode::Bob => "BOB",
            CurrencyCode::Bop => "BOP",
            CurrencyCode::Bov => "BOV",
            CurrencyCode::Brb => "BRB",
            CurrencyCode::Brc => "BRC",
            CurrencyCode::Bre => "BRE",
            CurrencyCode::Brl => "BRL",
            CurrencyCode::Brn => "BRN",
            CurrencyCode::Brr => "BRR",
            CurrencyCode::Bsd => "BSD",
            CurrencyCode::Btn => "BTN",
            CurrencyCode::Buk => "BUK",
            CurrencyCode::Bwp => "BWP",
            CurrencyCode::Byb => "BYB",
            CurrencyCode::Byn => "BYN",
            CurrencyCode::Byr => "BYR",
            CurrencyCode::Bzd => "BZD",
            CurrencyCode::Cad => "CAD",
            CurrencyCode::Cdf => "CDF",
            CurrencyCode::Chc => "CHC",
            CurrencyCode::Che => "CHE",
            CurrencyCode::Chf => "CHF",
            CurrencyCode::Chw => "CHW",
            CurrencyCode::Clf => "CLF",
            CurrencyCode::Clp => "CLP",
            CurrencyCode::Cny => "CNY",
            CurrencyCode::Cop => "COP",
            CurrencyCode::Cou => "COU",
            CurrencyCode::Crc => "CRC",
            CurrencyCode::Csd => "CSD",
            CurrencyCode::Csj => "CSJ",
            CurrencyCode::Csk => "CSK",
            CurrencyCode::Cuc => "CUC",
            CurrencyCode::Cup => "CUP",
            CurrencyCode::Cve => "CVE",
            CurrencyCode::Cyp => "CYP",
            CurrencyCode::Czk => "CZK",
            CurrencyCode::Ddm => "DDM",
            CurrencyCode::Dem => "DEM",
            CurrencyCode::Djf => "DJF",
            CurrencyCode::Dkk => "DKK",
            CurrencyCode::Dop => "DOP",
            CurrencyCode::Dzd => "DZD",
            CurrencyCode::Ecs => "ECS",
            CurrencyCode::Ecv => "ECV",
            CurrencyCode::Eek => "EEK",
            CurrencyCode::Egp => "EGP",
            CurrencyCode::Ern => "ERN",
            CurrencyCode::Esa => "ESA",
            CurrencyCode::Esb => "ESB",
            CurrencyCode::Esp => "ESP",
            CurrencyCode::Etb => "ETB",
            CurrencyCode::Eur => "EUR",
            CurrencyCode::Fim => "FIM",
            CurrencyCode::Fjd => "FJD",
            CurrencyCode::Fkp => "FKP",
            CurrencyCode::Frf => "FRF",
            CurrencyCode::Gbp => "GBP",
            CurrencyCode::Gek => "GEK",
            CurrencyCode::Gel => "GEL",
            CurrencyCode::Ghc => "GHC",
            CurrencyCode::Ghp => "GHP",
            CurrencyCode::Ghs => "GHS",
            CurrencyCode::Gip => "GIP",
            CurrencyCode::Gmd => "GMD",
            CurrencyCode::Gne => "GNE",
            CurrencyCode::Gnf => "GNF",
            CurrencyCode::Gns => "GNS",
            CurrencyCode::Gqe => "GQE",
            CurrencyCode::Grd => "GRD",
            CurrencyCode::Gtq => "GTQ",
            CurrencyCode::Gwe => "GWE",
            CurrencyCode::Gwp => "GWP",
            CurrencyCode::Gyd => "GYD",
            CurrencyCode::Hkd => "HKD",
            CurrencyCode::Hnl => "HNL",
            CurrencyCode::Hrd => "HRD",
            CurrencyCode::Hrk => "HRK",
            CurrencyCode::Htg => "HTG",
            CurrencyCode::Huf => "HUF",
            CurrencyCode::Idr => "IDR",
            CurrencyCode::Iep => "IEP",
            CurrencyCode::Ilp => "ILP",
            CurrencyCode::Ilr => "ILR",
            CurrencyCode::Ils => "ILS",
            CurrencyCode::Inr => "INR",
            CurrencyCode::Iqd => "IQD",
            CurrencyCode::Irr => "IRR",
            CurrencyCode::Isj => "ISJ",
            CurrencyCode::Isk => "ISK",
            CurrencyCode::Itl => "ITL",
            CurrencyCode::Jmd => "JMD",
            CurrencyCode::Jod => "JOD",
            CurrencyCode::Jpy => "JPY",
            CurrencyCode::Kes => "KES",
            CurrencyCode::Kgs => "KGS",
            CurrencyCode::Khr => "KHR",
            CurrencyCode::Kmf => "KMF",
            CurrencyCode::Kpw => "KPW",
            CurrencyCode::Krw => "KRW",
            CurrencyCode::Kwd => "KWD",
            CurrencyCode::Kyd => "KYD",
            CurrencyCode::Kzt => "KZT",
            CurrencyCode::Laj => "LAJ",
            CurrencyCode::Lak => "LAK",
            CurrencyCode::Lbp => "LBP",
            CurrencyCode::Lkr => "LKR",
            CurrencyCode::Lrd => "LRD",
            CurrencyCode::Lsl => "LSL",
            CurrencyCode::Lsm => "LSM",
            CurrencyCode::Ltl => "LTL",
            CurrencyCode::Ltt => "LTT",
            CurrencyCode::Luc => "LUC",
            CurrencyCode::Luf => "LUF",
            CurrencyCode::Lul => "LUL",
            CurrencyCode::Lvl => "LVL",
            CurrencyCode::Lvr => "LVR",
            CurrencyCode::Lyd => "LYD",
            CurrencyCode::Mad => "MAD",
            CurrencyCode::Mdl => "MDL",
            CurrencyCode::Mga => "MGA",
            CurrencyCode::Mgf => "MGF",
            CurrencyCode::Mkd => "MKD",
            CurrencyCode::Mlf => "MLF",
            CurrencyCode::Mmk => "MMK",
            CurrencyCode::Mnt => "MNT",
            CurrencyCode::Mop => "MOP",
            CurrencyCode::Mro => "MRO",
            CurrencyCode::Mru => "MRU",
            CurrencyCode::Mtl => "MTL",
            CurrencyCode::Mtp => "MTP",
            CurrencyCode::Mur => "MUR",
            CurrencyCode::Mvq => "MVQ",
            CurrencyCode::Mvr => "MVR",
            CurrencyCode::Mwk => "MWK",
            CurrencyCode::Mxn => "MXN",
            CurrencyCode::Mxp => "MXP",
            CurrencyCode::Mxv => "MXV",
            CurrencyCode::Myr => "MYR",
            CurrencyCode::Mze => "MZE",
            CurrencyCode::Mzm => "MZM",
            CurrencyCode::Mzn => "MZN",
            CurrencyCode::Nad => "NAD",
            CurrencyCode::Ngn => "NGN",
            CurrencyCode::Nic => "NIC",
            CurrencyCode::Nio => "NIO",
            CurrencyCode::Nlg => "NLG",
            CurrencyCode::Nok => "NOK",
            CurrencyCode::Npr => "NPR",
            CurrencyCode::Nzd => "NZD",
            CurrencyCode::Omr => "OMR",
            CurrencyCode::Pab => "PAB",
            CurrencyCode::Peh => "PEH",
            CurrencyCode::Pei => "PEI",
            CurrencyCode::Pen => "PEN",
            CurrencyCode::Pes => "PES",
            CurrencyCode::Pgk => "PGK",
            CurrencyCode::Php => "PHP",
            CurrencyCode::Pkr => "PKR",
            CurrencyCode::Pln => "PLN",
            CurrencyCode::Plz => "PLZ",
            CurrencyCode::Pte => "PTE",
            CurrencyCode::Pyg => "PYG",
            CurrencyCode::Qar => "QAR",
            CurrencyCode::Rhd => "RHD",
            CurrencyCode::Rok => "ROK",
            CurrencyCode::Rol => "ROL",
            CurrencyCode::Ron => "RON",
            CurrencyCode::Rsd => "RSD",
            CurrencyCode::Rub => "RUB",
            CurrencyCode::Rur => "RUR",
            CurrencyCode::Rwf => "RWF",
            CurrencyCode::Sar => "SAR",
            CurrencyCode::Sbd => "SBD",
            CurrencyCode::Scr => "SCR",
            CurrencyCode::Sdd => "SDD",
            CurrencyCode::Sdg => "SDG",
            CurrencyCode::Sdp => "SDP",
            CurrencyCode::Sek => "SEK",
            CurrencyCode::Sgd => "SGD",
            CurrencyCode::Shp => "SHP",
            CurrencyCode::Sit => "SIT",
            CurrencyCode::Skk => "SKK",
            CurrencyCode::Sll => "SLL",
            CurrencyCode::Sos => "SOS",
            CurrencyCode::Srd => "SRD",
            CurrencyCode::Srg => "SRG",
            CurrencyCode::Ssp => "SSP",
            CurrencyCode::Std => "STD",
            CurrencyCode::Stn => "STN",
            CurrencyCode::Sur => "SUR",
            CurrencyCode::Svc => "SVC",
            CurrencyCode::Syp => "SYP",
            CurrencyCode::Szl => "SZL",
            CurrencyCode::Thb => "THB",
            CurrencyCode::Tjr => "TJR",
            CurrencyCode::Tjs => "TJS",
            CurrencyCode::Tmm => "TMM",
            CurrencyCode::Tmt => "TMT",
            CurrencyCode::Tnd => "TND",
            CurrencyCode::Top => "TOP",
            CurrencyCode::Tpe => "TPE",
            CurrencyCode::Trl => "TRL",
            CurrencyCode::Try => "TRY",
            CurrencyCode::Ttd => "TTD",
            CurrencyCode::Twd => "TWD",
            CurrencyCode::Tzs => "TZS",
            CurrencyCode::Uah => "UAH",
            CurrencyCode::Uak => "UAK",
            CurrencyCode::Ugs => "UGS",
            CurrencyCode::Ugw => "UGW",
            CurrencyCode::Ugx => "UGX",
            CurrencyCode::Usd => "USD",
            CurrencyCode::Usn => "USN",
            CurrencyCode::Uss => "USS",
            CurrencyCode::Uyi => "UYI",
            CurrencyCode::Uyn => "UYN",
            CurrencyCode::Uyp => "UYP",
            CurrencyCode::Uyu => "UYU",
            CurrencyCode::Uyw => "UYW",
            CurrencyCode::Uzs => "UZS",
            CurrencyCode::Veb => "VEB",
            CurrencyCode::Vef => "VEF",
            CurrencyCode::Ves => "VES",
            CurrencyCode::Vnc => "VNC",
            CurrencyCode::Vnd => "VND",
            CurrencyCode::Vuv => "VUV",
            CurrencyCode::Wst => "WST",
            CurrencyCode::Xaf => "XAF",
            CurrencyCode::Xag => "XAG",
            CurrencyCode::Xau => "XAU",
            CurrencyCode::Xba => "XBA",
            CurrencyCode::Xbb => "XBB",
            CurrencyCode::Xbc => "XBC",
            CurrencyCode::Xbd => "XBD",
            CurrencyCode::Xcd => "XCD",
            CurrencyCode::Xdr => "XDR",
            CurrencyCode::Xeu => "XEU",
            CurrencyCode::Xfo => "XFO",
            CurrencyCode::Xfu => "XFU",
            CurrencyCode::Xof => "XOF",
            CurrencyCode::Xpd => "XPD",
            CurrencyCode::Xpf => "XPF",
            CurrencyCode::Xpt => "XPT",
            CurrencyCode::Xre => "XRE",
            CurrencyCode::Xsu => "XSU",
            CurrencyCode::Xts => "XTS",
            CurrencyCode::Xua => "XUA",
            CurrencyCode::Xxx => "XXX",
            CurrencyCode::Ydd => "YDD",
            CurrencyCode::Yer => "YER",
            CurrencyCode::Yud => "YUD",
            CurrencyCode::Yum => "YUM",
            CurrencyCode::Yun => "YUN",
            CurrencyCode::Zal => "ZAL",
            CurrencyCode::Zar => "ZAR",
            CurrencyCode::Zmk => "ZMK",
            CurrencyCode::Zmw => "ZMW",
            CurrencyCode::Zrn => "ZRN",
            CurrencyCode::Zrz => "ZRZ",
            CurrencyCode::Zwc => "ZWC",
            CurrencyCode::Zwd => "ZWD",
            CurrencyCode::Zwl => "ZWL",
            CurrencyCode::Zwn => "ZWN",
            CurrencyCode::Zwr => "ZWR",
        }
    }

    /// The variant a string names, if any.
    pub open spec fn spec_from_str(s: Seq<char>) -> Option<CurrencyCode> {
        if s == "ADP"@ {
            Option::Some(CurrencyCode::Adp)
        } else if s == "AED"@ {
            Option::Some(CurrencyCode::Aed)
        } else if s == "AFA"@ {
            Option::Some(CurrencyCode::Afa)
        } else if s == "AFN"@ {
            Option::Some(CurrencyCode::Afn)
        } else if s == "ALK"@ {
            Option::Some(CurrencyCode::Alk)
        } else if s == "ALL"@ {
            Option::Some(CurrencyCode::All)
        } else if s == "AMD"@ {
            Option::Some(CurrencyCode::Amd)
        } else if s == "ANG"@ {
            Option::Some(CurrencyCode::Ang)
        } else if s == "AOA"@ {
            Option::Some(CurrencyCode::Aoa)
        } else if s == "AOK"@ {
            Option::Some(CurrencyCode::Aok)
        } else if s == "AON"@ {
            Option::Some(CurrencyCode::Aon)
        } else if s == "AOR"@ {
            Option::Some(CurrencyCode::Aor)
        } else if s == "ARA"@ {
            Option::Some(CurrencyCode::Ara)
        } else if s == "ARP"@ {
            Option::Some(CurrencyCode::Arp)
        } else if s == "ARS"@ {
            Option::Some(CurrencyCode::Ars)
        } else if s == "ARY"@ {
            Option::Some(CurrencyCode::Ary)
        } else if s == "ATS"@ {
            Option::Some(CurrencyCode::Ats)
        } else if s == "AUD"@ {
            Option::Some(CurrencyCode::Aud)
        } else if s == "AWG"@ {
            Option::Some(CurrencyCode::Awg)
        } else if s == "AYM"@ {
            Option::Some(CurrencyCode::Aym)
        } else if s == "AZM"@ {
            Option::Some(CurrencyCode::Azm)
        } else if s == "AZN"@ {
            Option::Some(CurrencyCode::Azn)
        } else if s == "BAD"@ {
            Option::Some(CurrencyCode::Bad)
        } else if s == "BAM"@ {
            Option::Some(CurrencyCode::Bam)
        } else if s == "BBD"@ {
            Option::Some(CurrencyCode::Bbd)
        } else if s == "BDT"@ {
            Option::Some(CurrencyCode::Bdt)
        } else if s == "BEC"@ {
            Option::Some(CurrencyCode::Bec)
        } else if s == "BEF"@ {
            Option::Some(CurrencyCode::Bef)
        } else if s == "BEL"@ {
            Option::Some(CurrencyCode::Bel)
        } else if s == "BGJ"@ {
            Option::Some(CurrencyCode::Bgj)
        } else if s == "BGK"@ {
            Option::Some(CurrencyCode::Bgk)
        } else if s == "BGL"@ {
            Option::Some(CurrencyCode::Bgl)
        } else if s == "BGN"@ {
            Option::Some(CurrencyCode::Bgn)
        } else if s == "BHD"@ {
            Option::Some(CurrencyCode::Bhd)
        } else if s == "BIF"@ {
            Option::Some(CurrencyCode::Bif)
        } else if s == "BMD"@ {
            Option::Some(CurrencyCode::Bmd)
        } else if s == "BND"@ {
            Option::Some(CurrencyCode::Bnd)
        } else if s == "BOB"@ {
            Option::Some(CurrencyCode::Bob)
        } else if s == "BOP"@ {
            Option::Some(CurrencyCode::Bop)
        } else if s == "BOV"@ {
            Option::Some(CurrencyCode::Bov)
        } else if s == "BRB"@ {
            Option::Some(CurrencyCode::Brb)
        } else if s == "BRC"@ {
            Option::Some(CurrencyCode::Brc)
        } else if s == "BRE"@ {
            Option::Some(CurrencyCode::Bre)
        } else if s == "BRL"@ {
            Option::Some(CurrencyCode::Brl)
        } else if s == "BRN"@ {
            Option::Some(CurrencyCode::Brn)
        } else if s == "BRR"@ {
            Option::Some(CurrencyCode::Brr)
        } else if s == "BSD"@ {
            Option::Some(CurrencyCode::Bsd)
        } else if s == "BTN"@ {
            Option::Some(CurrencyCode::Btn)
        } else if s == "BUK"@ {
            Option::Some(CurrencyCode::Buk)
        } else if s == "BWP"@ {
            Option::Some(CurrencyCode::Bwp)
        } else if s == "BYB"@ {
            Option::Some(CurrencyCode::Byb)
        } else if s == "BYN"@ {
            Option::Some(CurrencyCode::Byn)
        } else if s == "BYR"@ {
            Option::Some(CurrencyCode::Byr)
        } else if s == "BZD"@ {
            Option::Some(CurrencyCode::Bzd)
        } else if s == "CAD"@ {
            Option::Some(CurrencyCode::Cad)
        } else if s == "CDF"@ {
            Option::Some(CurrencyCode::Cdf)
        } else if s == "CHC"@ {
            Option::Some(CurrencyCode::Chc)
        } else if s == "CHE"@ {
            Option::Some(CurrencyCode::Che)
        } else if s == "CHF"@ {
            Option::Some(CurrencyCode::Chf)
        } else if s == "CHW"@ {
            Option::Some(CurrencyCode::Chw)
        } else if s == "CLF"@ {
            Option::Some(CurrencyCode::Clf)
        } else if s == "CLP"@ {
            Option::Some(CurrencyCode::Clp)
        } else if s == "CNY"@ {
            Option::Some(CurrencyCode::Cny)
        } else if s == "COP"@ {
            Option::Some(CurrencyCode::Cop)
        } else if s == "COU"@ {
            Option::Some(CurrencyCode::Cou)
        } else if s == "CRC"@ {
            Option::Some(CurrencyCode::Crc)
        } else if s == "CSD"@ {
            Option::Some(CurrencyCode::Csd)
        } else if s == "CSJ"@ {
            Option::Some(CurrencyCode::Csj)
        } else if s == "CSK"@ {
            Option::Some(CurrencyCode::Csk)
        } else if s == "CUC"@ {
            Option::Some(CurrencyCode::Cuc)
        } else if s == "CUP"@ {
            Option::Some(CurrencyCode::Cup)
        } else if s == "CVE"@ {
            Option::Some(CurrencyCode::Cve)
        } else if s == "CYP"@ {
            Option::Some(CurrencyCode::Cyp)
        } else if s == "CZK"@ {
            Option::Some(CurrencyCode::Czk)
        } else if s == "DDM"@ {
            Option::Some(CurrencyCode::Ddm)
        } else if s == "DEM"@ {
            Option::Some(CurrencyCode::Dem)
        } else if s == "DJF"@ {
            Option::Some(CurrencyCode::Djf)
        } else if s == "DKK"@ {
            Option::Some(CurrencyCode::Dkk)
        } else if s == "DOP"@ {
            Option::Some(CurrencyCode::Dop)
        } else if s == "DZD"@ {
            Option::Some(CurrencyCode::Dzd)
        } else if s == "ECS"@ {
            Option::Some(CurrencyCode::Ecs)
        } else if s == "ECV"@ {
            Option::Some(CurrencyCode::Ecv)
        } else if s == "EEK"@ {
            Option::Some(CurrencyCode::Eek)
        } else if s == "EGP"@ {
            Option::Some(CurrencyCode::Egp)
        } else if s == "ERN"@ {
            Option::Some(CurrencyCode::Ern)
        } else if s == "ESA"@ {
            Option::Some(CurrencyCode::Esa)
        } else if s == "ESB"@ {
            Option::Some(CurrencyCode::Esb)
        } else if s == "ESP"@ {
            Option::Some(CurrencyCode::Esp)
        } else if s == "ETB"@ {
            Option::Some(CurrencyCode::Etb)
        } else if s == "EUR"@ {
            Option::Some(CurrencyCode::Eur)
        } else if s == "FIM"@ {
            Option::Some(CurrencyCode::Fim)
        } else if s == "FJD"@ {
            Option::Some(CurrencyCode::Fjd)
        } else if s == "FKP"@ {
            Option::Some(CurrencyCode::Fkp)
        } else if s == "FRF"@ {
            Option::Some(CurrencyCode::Frf)
        } else if s == "GBP"@ {
            Option::Some(CurrencyCode::Gbp)
        } else if s == "GEK"@ {
            Option::Some(CurrencyCode::Gek)
        } else if s == "GEL"@ {
            Option::Some(CurrencyCode::Gel)
        } else if s == "GHC"@ {
            Option::Some(CurrencyCode::Ghc)
        } else if s == "GHP"@ {
            Option::Some(CurrencyCode::Ghp)
        } else if s == "GHS"@ {
            Option::Some(CurrencyCode::Ghs)
        } else if s == "GIP"@ {
            Option::Some(CurrencyCode::Gip)
        } else if s == "GMD"@ {
            Option::Some(CurrencyCode::Gmd)
        } else if s == "GNE"@ {
            Option::Some(CurrencyCode::Gne)
        } else if s == "GNF"@ {
            Option::Some(CurrencyCode::Gnf)
        } else if s == "GNS"@ {
            Option::Some(CurrencyCode::Gns)
        } else if s == "GQE"@ {
            Option::Some(CurrencyCode::Gqe)
        } else if s == "GRD"@ {
            Option::Some(CurrencyCode::Grd)
        } else if s == "GTQ"@ {
            Option::Some(CurrencyCode::Gtq)
        } else if s == "GWE"@ {
            Option::Some(CurrencyCode::Gwe)
        } else if s == "GWP"@ {
            Option::Some(CurrencyCode::Gwp)
        } else if s == "GYD"@ {
            Option::Some(CurrencyCode::Gyd)
        } else if s == "HKD"@ {
            Option::Some(CurrencyCode::Hkd)
        } else if s == "HNL"@ {
            Option::Some(CurrencyCode::Hnl)
        } else if s == "HRD"@ {
            Option::Some(CurrencyCode::Hrd)
        } else if s == "HRK"@ {
            Option::Some(CurrencyCode::Hrk)
        } else if s == "HTG"@ {
            Option::Some(CurrencyCode::Htg)
        } else if s == "HUF"@ {
            Option::Some(CurrencyCode::Huf)
        } else if s == "IDR"@ {
            Option::Some(CurrencyCode::Idr)
        } else if s == "IEP"@ {
            Option::Some(CurrencyCode::Iep)
        } else if s == "ILP"@ {
            Option::Some(CurrencyCode::Ilp)
        } else if s == "ILR"@ {
            Option::Some(CurrencyCode::Ilr)
        } else if s == "ILS"@ {
            Option::Some(CurrencyCode::Ils)
        } else if s == "INR"@ {
            Option::Some(CurrencyCode::Inr)
        } else if s == "IQD"@ {
            Option::Some(CurrencyCode::Iqd)
        } else if s == "IRR"@ {
            Option::Some(CurrencyCode::Irr)
        } else if s == "ISJ"@ {
            Option::Some(CurrencyCode::Isj)
        } else if s == "ISK"@ {
            Option::Some(CurrencyCode::Isk)
        } else if s == "ITL"@ {
            Option::Some(CurrencyCode::Itl)
        } else if s == "JMD"@ {
            Option::Some(CurrencyCode::Jmd)
        } else if s == "JOD"@ {
            Option::Some(CurrencyCode::Jod)
        } else if s == "JPY"@ {
            Option::Some(CurrencyCode::Jpy)
        } else if s == "KES"@ {
            Option::Some(CurrencyCode::Kes)
        } else if s == "KGS"@ {
            Option::Some(CurrencyCode::Kgs)
        } else if s == "KHR"@ {
            Option::Some(CurrencyCode::Khr)
        } else if s == "KMF"@ {
            Option::Some(CurrencyCode::Kmf)
        } else if s == "KPW"@ {
            Option::Some(CurrencyCode::Kpw)
        } else if s == "KRW"@ {
            Option::Some(CurrencyCode::Krw)
        } else if s == "KWD"@ {
            Option::Some(CurrencyCode::Kwd)
        } else if s == "KYD"@ {
            Option::Some(CurrencyCode::Kyd)
        } else if s == "KZT"@ {
            Option::Some(CurrencyCode::Kzt)
        } else if s == "LAJ"@ {
            Option::Some(CurrencyCode::Laj)
        } else if s == "LAK"@ {
            Option::Some(CurrencyCode::Lak)
        } else if s == "LBP"@ {
            Option::Some(CurrencyCode::Lbp)
        } else if s == "LKR"@ {
            Option::Some(CurrencyCode::Lkr)
        } else if s == "LRD"@ {
            Option::Some(CurrencyCode::Lrd)
        } else if s == "LSL"@ {
            Option::Some(CurrencyCode::Lsl)
        } else if s == "LSM"@ {
            Option::Some(CurrencyCode::Lsm)
        } else if s == "LTL"@ {
            Option::Some(CurrencyCode::Ltl)
        } else if s == "LTT"@ {
            Option::Some(CurrencyCode::Ltt)
        } else if s == "LUC"@ {
            Option::Some(CurrencyCode::Luc)
        } else if s == "LUF"@ {
            Option::Some(CurrencyCode::Luf)
        } else if s == "LUL"@ {
            Option::Some(CurrencyCode::Lul)
        } else if s == "LVL"@ {
            Option::Some(CurrencyCode::Lvl)
        } else if s == "LVR"@ {
            Option::Some(CurrencyCode::Lvr)
        } else if s == "LYD"@ {
            Option::Some(CurrencyCode::Lyd)
        } else if s == "MAD"@ {
            Option::Some(CurrencyCode::Mad)
        } else if s == "MDL"@ {
            Option::Some(CurrencyCode::Mdl)
        } else if s == "MGA"@ {
            Option::Some(CurrencyCode::Mga)
        } else if s == "MGF"@ {
            Option::Some(CurrencyCode::Mgf)
        } else if s == "MKD"@ {
            Option::Some(CurrencyCode::Mkd)
        } else if s == "MLF"@ {
            Option::Some(CurrencyCode::Mlf)
        } else if s == "MMK"@ {
            Option::Some(CurrencyCode::Mmk)
        } else if s == "MNT"@ {
            Option::Some(CurrencyCode::Mnt)
        } else if s == "MOP"@ {
            Option::Some(CurrencyCode::Mop)
        } else if s == "MRO"@ {
            Option::Some(CurrencyCode::Mro)
        } else if s == "MRU"@ {
            Option::Some(CurrencyCode::Mru)
        } else if s == "MTL"@ {
            Option::Some(CurrencyCode::Mtl)
        } else if s == "MTP"@ {
            Option::Some(CurrencyCode::Mtp)
        } else if s == "MUR"@ {
            Option::Some(CurrencyCode::Mur)
        } else if s == "MVQ"@ {
            Option::Some(CurrencyCode::Mvq)
        } else if s == "MVR"@ {
            Option::Some(CurrencyCode::Mvr)
        } else if s == "MWK"@ {
            Option::Some(CurrencyCode::Mwk)
        } else if s == "MXN"@ {
            Option::Some(CurrencyCode::Mxn)
        } else if s == "MXP"@ {
            Option::Some(CurrencyCode::Mxp)
        } else if s == "MXV"@ {
            Option::Some(CurrencyCode::Mxv)
        } else if s == "MYR"@ {
            Option::Some(CurrencyCode::Myr)
        } else if s == "MZE"@ {
            Option::Some(CurrencyCode::Mze)
        } else if s == "MZM"@ {
            Option::Some(CurrencyCode::Mzm)
        } else if s == "MZN"@ {
            Option::Some(CurrencyCode::Mzn)
        } else if s == "NAD"@ {
            Option::Some(CurrencyCode::Nad)
        } else if s == "NGN"@ {
            Option::Some(CurrencyCode::Ngn)
        } else if s == "NIC"@ {
            Option::Some(CurrencyCode::Nic)
        } else if s == "NIO"@ {
            Option::Some(CurrencyCode::Nio)
        } else if s == "NLG"@ {
            Option::Some(CurrencyCode::Nlg)
        } else if s == "NOK"@ {
            Option::Some(CurrencyCode::Nok)
        } else if s == "NPR"@ {
            Option::Some(CurrencyCode::Npr)
        } else if s == "NZD"@ {
            Option::Some(CurrencyCode::Nzd)
        } else if s == "OMR"@ {
            Option::Some(CurrencyCode::Omr)
        } else if s == "PAB"@ {
            Option::Some(CurrencyCode::Pab)
        } else if s == "PEH"@ {
            Option::Some(CurrencyCode::Peh)
        } else if s == "PEI"@ {
            Option::Some(CurrencyCode::Pei)
        } else if s == "PEN"@ {
            Option::Some(CurrencyCode::Pen)
        } else if s == "PES"@ {
            Option::Some(CurrencyCode::Pes)
        } else if s == "PGK"@ {
            Option::Some(CurrencyCode::Pgk)
        } else if s == "PHP"@ {
            Option::Some(CurrencyCode::Php)
        } else if s == "PKR"@ {
            Option::Some(CurrencyCode::Pkr)
        } else if s == "PLN"@ {
            Option::Some(CurrencyCode::Pln)
        } else if s == "PLZ"@ {
            Option::Some(CurrencyCode::Plz)
        } else if s == "PTE"@ {
            Option::Some(CurrencyCode::Pte)
        } else if s == "PYG"@ {
            Option::Some(CurrencyCode::Pyg)
        } else if s == "QAR"@ {
            Option::Some(CurrencyCode::Qar)
        } else if s == "RHD"@ {
            Option::Some(CurrencyCode::Rhd)
        } else if s == "ROK"@ {
            Option::Some(CurrencyCode::Rok)
        } else if s == "ROL"@ {
            Option::Some(CurrencyCode::Rol)
        } else if s == "RON"@ {
            Option::Some(CurrencyCode::Ron)
        } else if s == "RSD"@ {
            Option::Some(CurrencyCode::Rsd)
        } else if s == "RUB"@ {
            Option::Some(CurrencyCode::Rub)
        } else if s == "RUR"@ {
            Option::Some(CurrencyCode::Rur)
        } else if s == "RWF"@ {
            Option::Some(CurrencyCode::Rwf)
        } else if s == "SAR"@ {
            Option::Some(CurrencyCode::Sar)
        } else if s == "SBD"@ {
            Option::Some(CurrencyCode::Sbd)
        } else if s == "SCR"@ {
            Option::Some(CurrencyCode::Scr)
        } else if s == "SDD"@ {
            Option::Some(CurrencyCode::Sdd)
        } else if s == "SDG"@ {
            Option::Some(CurrencyCode::Sdg)
        } else if s == "SDP"@ {
            Option::Some(CurrencyCode::Sdp)
        } else if s == "SEK"@ {
            Option::Some(CurrencyCode::Sek)
        } else if s == "SGD"@ {
            Option::Some(CurrencyCode::Sgd)
        } else if s == "SHP"@ {
            Option::Some(CurrencyCode::Shp)
        } else if s == "SIT"@ {
            Option::Some(CurrencyCode::Sit)
        } else if s == "SKK"@ {
            Option::Some(CurrencyCode::Skk)
        } else if s == "SLL"@ {
            Option::Some(CurrencyCode::Sll)
        } else if s == "SOS"@ {
            Option::Some(CurrencyCode::Sos)
        } else if s == "SRD"@ {
            Option::Some(CurrencyCode::Srd)
        } else if s == "SRG"@ {
            Option::Some(CurrencyCode::Srg)
        } else if s == "SSP"@ {
            Option::Some(CurrencyCode::Ssp)
        } else if s == "STD"@ {
            Option::Some(CurrencyCode::Std)
        } else if s == "STN"@ {
            Option::Some(CurrencyCode::Stn)
        } else if s == "SUR"@ {
            Option::Some(CurrencyCode::Sur)
        } else if s == "SVC"@ {
            Option::Some(CurrencyCode::Svc)
        } else if s == "SYP"@ {
            Option::Some(CurrencyCode::Syp)
        } else if s == "SZL"@ {
            Option::Some(CurrencyCode::Szl)
        } else if s == "THB"@ {
            Option::Some(CurrencyCode::Thb)
        } else if s == "TJR"@ {
            Option::Some(CurrencyCode::Tjr)
        } else if s == "TJS"@ {
            Option::Some(CurrencyCode::Tjs)
        } else if s == "TMM"@ {
            Option::Some(CurrencyCode::Tmm)
        } else if s == "TMT"@ {
            Option::Some(CurrencyCode::Tmt)
        } else if s == "TND"@ {
            Option::Some(CurrencyCode::Tnd)
        } else if s == "TOP"@ {
            Option::Some(CurrencyCode::Top)
        } else if s == "TPE"@ {
            Option::Some(CurrencyCode::Tpe)
        } else if s == "TRL"@ {
            Option::Some(CurrencyCode::Trl)
        } else if s == "TRY"@ {
            Option::Some(CurrencyCode::Try)
        } else if s == "TTD"@ {
            Option::Some(CurrencyCode::Ttd)
        } else if s == "TWD"@ {
            Option::Some(CurrencyCode::Twd)
        } else if s == "TZS"@ {
            Option::Some(CurrencyCode::Tzs)
        } else if s == "UAH"@ {
            Option::Some(CurrencyCode::Uah)
        } else if s == "UAK"@ {
            Option::Some(CurrencyCode::Uak)
        } else if s == "UGS"@ {
            Option::Some(CurrencyCode::Ugs)
        } else if s == "UGW"@ {
            Option::Some(CurrencyCode::Ugw)
        } else if s == "UGX"@ {
            Option::Some(CurrencyCode::Ugx)
        } else if s == "USD"@ {
            Option::Some(CurrencyCode::Usd)
        } else if s == "USN"@ {
            Option::Some(CurrencyCode::Usn)
        } else if s == "USS"@ {
            Option::Some(CurrencyCode::Uss)
        } else if s == "UYI"@ {
            Option::Some(CurrencyCode::Uyi)
        } else if s == "UYN"@ {
            Option::Some(CurrencyCode::Uyn)
        } else if s == "UYP"@ {
            Option::Some(CurrencyCode::Uyp)
        } else if s == "UYU"@ {
            Option::Some(CurrencyCode::Uyu)
        } else if s == "UYW"@ {
            Option::Some(CurrencyCode::Uyw)
        } else if s == "UZS"@ {
            Option::Some(CurrencyCode::Uzs)
        } else if s == "VEB"@ {
            Option::Some(CurrencyCode::Veb)
        } else if s == "VEF"@ {
            Option::Some(CurrencyCode::Vef)
        } else if s == "VES"@ {
            Option::Some(CurrencyCode::Ves)
        } else if s == "VNC"@ {
            Option::Some(CurrencyCode::Vnc)
        } else if s == "VND"@ {
            Option::Some(CurrencyCode::Vnd)
        } else if s == "VUV"@ {
            Option::Some(CurrencyCode::Vuv)
        } else if s == "WST"@ {
            Option::Some(CurrencyCode::Wst)
        } else if s == "XAF"@ {
            Option::Some(CurrencyCode::Xaf)
        } else if s == "XAG"@ {
            Option::Some(CurrencyCode::Xag)
        } else if s == "XAU"@ {
            Option::Some(CurrencyCode::Xau)
        } else if s == "XBA"@ {
            Option::Some(CurrencyCode::Xba)
        } else if s == "XBB"@ {
            Option::Some(CurrencyCode::Xbb)
        } else if s == "XBC"@ {
            Option::Some(CurrencyCode::Xbc)
        } else if s == "XBD"@ {
            Option::Some(CurrencyCode::Xbd)
        } else if s == "XCD"@ {
            Option::Some(CurrencyCode::Xcd)
        } else if s == "XDR"@ {
            Option::Some(CurrencyCode::Xdr)
        } else if s == "XEU"@ {
            Option::Some(CurrencyCode::Xeu)
        } else if s == "XFO"@ {
            Option::Some(CurrencyCode::Xfo)
        } else if s == "XFU"@ {
            Option::Some(CurrencyCode::Xfu)
        } else if s == "XOF"@ {
            Option::Some(CurrencyCode::Xof)
        } else if s == "XPD"@ {
            Option::Some(CurrencyCode::Xpd)
        } else if s == "XPF"@ {
            Option::Some(CurrencyCode::Xpf)
        } else if s == "XPT"@ {
            Option::Some(CurrencyCode::Xpt)
        } else if s == "XRE"@ {
            Option::Some(CurrencyCode::Xre)
        } else if s == "XSU"@ {
            Option::Some(CurrencyCode::Xsu)
        } else if s == "XTS"@ {
            Option::Some(CurrencyCode::Xts)
        } else if s == "XUA"@ {
            Option::Some(CurrencyCode::Xua)
        } else if s == "XXX"@ {
            Option::Some(CurrencyCode::Xxx)
        } else if s == "YDD"@ {
            Option::Some(CurrencyCode::Ydd)
        } else if s == "YER"@ {
            Option::Some(CurrencyCode::Yer)
        } else if s == "YUD"@ {
            Option::Some(CurrencyCode::Yud)
        } else if s == "YUM"@ {
            Option::Some(CurrencyCode::Yum)
        } else if s == "YUN"@ {
            Option::Some(CurrencyCode::Yun)
        } else if s == "ZAL"@ {
            Option::Some(CurrencyCode::Zal)
        } else if s == "ZAR"@ {
            Option::Some(CurrencyCode::Zar)
        } else if s == "ZMK"@ {
            Option::Some(CurrencyCode::Zmk)
        } else if s == "ZMW"@ {
            Option::Some(CurrencyCode::Zmw)
        } else if s == "ZRN"@ {
            Option::Some(CurrencyCode::Zrn)
        } else if s == "ZRZ"@ {
            Option::Some(CurrencyCode::Zrz)
        } else if s == "ZWC"@ {
            Option::Some(CurrencyCode::Zwc)
        } else if s == "ZWD"@ {
            Option::Some(CurrencyCode::Zwd)
        } else if s == "ZWL"@ {
            Option::Some(CurrencyCode::Zwl)
        } else if s == "ZWN"@ {
            Option::Some(CurrencyCode::Zwn)
        } else if s == "ZWR"@ {
            Option::Some(CurrencyCode::Zwr)
        } else {
            Option::None
        }
    }

    /// Parses a display string; unknown strings are refused.
    pub fn from_str(input: &str) -> (r: Result<CurrencyCode, ThothError>)
        ensures
            (match Self::spec_from_str(input@) {
                Option::Some(v) => r matches Ok(x) && x == v,
                Option::None => r matches Err(e) && e is VariantNotFound,
            }),
    {
        if str_eq(input, "ADP") {
            Ok(CurrencyCode::Adp)
        } else if str_eq(input, "AED") {
            Ok(CurrencyCode::Aed)
        } else if str_eq(input, "AFA") {
            Ok(CurrencyCode::Afa)
        } else if str_eq(input, "AFN") {
            Ok(CurrencyCode::Afn)
        } else if str_eq(input, "ALK") {
            Ok(CurrencyCode::Alk)
        } else if str_eq(input, "ALL") {
            Ok(CurrencyCode::All)
        } else if str_eq(input, "AMD") {
            Ok(CurrencyCode::Amd)
        } else if str_eq(input, "ANG") {
            Ok(CurrencyCode::Ang)
        } else if str_eq(input, "AOA") {
            Ok(CurrencyCode::Aoa)
        } else if str_eq(input, "AOK") {
            Ok(CurrencyCode::Aok)
        } else if str_eq(input, "AON") {
            Ok(CurrencyCode::Aon)
        } else if str_eq(input, "AOR") {
            Ok(CurrencyCode::Aor)
        } else if str_eq(input, "ARA") {
            Ok(CurrencyCode::Ara)
        } else if str_eq(input, "ARP") {
            Ok(CurrencyCode::Arp)
        } else if str_eq(input, "ARS") {
            Ok(CurrencyCode::Ars)
        } else if str_eq(input, "ARY") {
            Ok(CurrencyCode::Ary)
        } else if str_eq(input, "ATS") {
            Ok(CurrencyCode::Ats)
        } else if str_eq(input, "AUD") {
            Ok(CurrencyCode::Aud)
        } else if str_eq(input, "AWG") {
            Ok(CurrencyCode::Awg)
        } else if str_eq(input, "AYM") {
            Ok(CurrencyCode::Aym)
        } else if str_eq(input, "AZM") {
            Ok(CurrencyCode::Azm)
        } else if str_eq(input, "AZN") {
            Ok(CurrencyCode::Azn)
        } else if str_eq(input, "BAD") {
            Ok(CurrencyCode::Bad)
        } else if str_eq(input, "BAM") {
            Ok(CurrencyCode::Bam)
        } else if str_eq(input, "BBD") {
            Ok(CurrencyCode::Bbd)
        } else if str_eq(input, "BDT") {
            Ok(CurrencyCode::Bdt)
        } else if str_eq(input, "BEC") {
            Ok(CurrencyCode::Bec)
        } else if str_eq(input, "BEF") {
            Ok(CurrencyCode::Bef)
        } else if str_eq(input, "BEL") {
            Ok(CurrencyCode::Bel)
        } else if str_eq(input, "BGJ") {
            Ok(CurrencyCode::Bgj)
        } else if str_eq(input, "BGK") {
            Ok(CurrencyCode::Bgk)
        } else if str_eq(input, "BGL") {
            Ok(CurrencyCode::Bgl)
        } else if str_eq(input, "BGN") {
            Ok(CurrencyCode::Bgn)
        } else if str_eq(input, "BHD") {
            Ok(CurrencyCode::Bhd)
        } else if str_eq(input, "BIF") {
            Ok(CurrencyCode::Bif)
        } else if str_eq(input, "BMD") {
            Ok(CurrencyCode::Bmd)
        } else if str_eq(input, "BND") {
            Ok(CurrencyCode::Bnd)
        } else if str_eq(input, "BOB") {
            Ok(CurrencyCode::Bob)
        } else if str_eq(input, "BOP") {
            Ok(CurrencyCode::Bop)
        } else if str_eq(input, "BOV") {
            Ok(CurrencyCode::Bov)
        } else if str_eq(input, "BRB") {
            Ok(CurrencyCode::Brb)
        } else if str_eq(input, "BRC") {
            Ok(CurrencyCode::Brc)
        } else if str_eq(input, "BRE") {
            Ok(CurrencyCode::Bre)
        } else if str_eq(input, "BRL") {
            Ok(CurrencyCode::Brl)
        } else if str_eq(input, "BRN") {
            Ok(CurrencyCode::Brn)
        } else if str_eq(input, "BRR") {
            Ok(CurrencyCode::Brr)
        } else if str_eq(input, "BSD") {
            Ok(CurrencyCode::Bsd)
        } else if str_eq(input, "BTN") {
            Ok(CurrencyCode::Btn)
        } else if str_eq(input, "BUK") {
            Ok(CurrencyCode::Buk)
        } else if str_eq(input, "BWP") {
            Ok(CurrencyCode::Bwp)
        } else if str_eq(input, "BYB") {
            Ok(CurrencyCode::Byb)
        } else if str_eq(input, "BYN") {
            Ok(CurrencyCode::Byn)
        } else if str_eq(input, "BYR") {
            Ok(CurrencyCode::Byr)
        } else if str_eq(input, "BZD") {
            Ok(CurrencyCode::Bzd)
        } else if str_eq(input, "CAD") {
            Ok(CurrencyCode::Cad)
        } else if str_eq(input, "CDF") {
            Ok(CurrencyCode::Cdf)
        } else if str_eq(input, "CHC") {
            Ok(CurrencyCode::Chc)
        } else if str_eq(input, "CHE") {
            Ok(CurrencyCode::Che)
        } else if str_eq(input, "CHF") {
            Ok(CurrencyCode::Chf)
        } else if str_eq(input, "CHW") {
            Ok(CurrencyCode::Chw)
        } else if str_eq(input, "CLF") {
            Ok(CurrencyCode::Clf)
        } else if str_eq(input, "CLP") {
            Ok(CurrencyCode::Clp)
        } else if str_eq(input, "CNY") {
            Ok(CurrencyCode::Cny)
        } else if str_eq(input, "COP") {
            Ok(CurrencyCode::Cop)
        } else if str_eq(input, "COU") {
            Ok(CurrencyCode::Cou)
        } else if str_eq(input, "CRC") {
            Ok(CurrencyCode::Crc)
        } else if str_eq(input, "CSD") {
            Ok(CurrencyCode::Csd)
        } else if str_eq(input, "CSJ") {
            Ok(CurrencyCode::Csj)
        } else if str_eq(input, "CSK") {
            Ok(CurrencyCode::Csk)
        } else if str_eq(input, "CUC") {
            Ok(CurrencyCode::Cuc)
        } else if str_eq(input, "CUP") {
            Ok(CurrencyCode::Cup)
        } else if str_eq(input, "CVE") {
            Ok(CurrencyCode::Cve)
        } else if str_eq(input, "CYP") {
            Ok(CurrencyCode::Cyp)
        } else if str_eq(input, "CZK") {
            Ok(CurrencyCode::Czk)
        } else if str_eq(input, "DDM") {
            Ok(CurrencyCode::Ddm)
        } else if str_eq(input, "DEM") {
            Ok(CurrencyCode::Dem)
        } else if str_eq(input, "DJF") {
            Ok(CurrencyCode::Djf)
        } else if str_eq(input, "DKK") {
            Ok(CurrencyCode::Dkk)
        } else if str_eq(input, "DOP") {
            Ok(CurrencyCode::Dop)
        } else if str_eq(input, "DZD") {
            Ok(CurrencyCode::Dzd)
        } else if str_eq(input, "ECS") {
            Ok(CurrencyCode::Ecs)
        } else if str_eq(input, "ECV") {
            Ok(CurrencyCode::Ecv)
        } else if str_eq(input, "EEK") {
            Ok(CurrencyCode::Eek)
        } else if str_eq(input, "EGP") {
            Ok(CurrencyCode::Egp)
        } else if str_eq(input, "ERN") {
            Ok(CurrencyCode::Ern)
        } else if str_eq(input, "ESA") {
            Ok(CurrencyCode::Esa)
        } else if str_eq(input, "ESB") {
            Ok(CurrencyCode::Esb)
        } else if str_eq(input, "ESP") {
            Ok(CurrencyCode::Esp)
        } else if str_eq(input, "ETB") {
            Ok(CurrencyCode::Etb)
        } else if str_eq(input, "EUR") {
            Ok(CurrencyCode::Eur)
        } else if str_eq(input, "FIM") {
            Ok(CurrencyCode::Fim)
        } else if str_eq(input, "FJD") {
            Ok(CurrencyCode::Fjd)
        } else if str_eq(input, "FKP") {
            Ok(CurrencyCode::Fkp)
        } else if str_eq(input, "FRF") {
            Ok(CurrencyCode::Frf)
        } else if str_eq(input, "GBP") {
            Ok(CurrencyCode::Gbp)
        } else if str_eq(input, "GEK") {
            Ok(CurrencyCode::Gek)
        } else if str_eq(input, "GEL") {
            Ok(CurrencyCode::Gel)
        } else if str_eq(input, "GHC") {
            Ok(CurrencyCode::Ghc)
        } else if str_eq(input, "GHP") {
            Ok(CurrencyCode::Ghp)
        } else if str_eq(input, "GHS") {
            Ok(CurrencyCode::Ghs)
        } else if str_eq(input, "GIP") {
            Ok(CurrencyCode::Gip)
        } else if str_eq(input, "GMD") {
            Ok(CurrencyCode::Gmd)
        } else if str_eq(input, "GNE") {
            Ok(CurrencyCode::Gne)
        } else if str_eq(input, "GNF") {
            Ok(CurrencyCode::Gnf)
        } else if str_eq(input, "GNS") {
            Ok(CurrencyCode::Gns)
        } else if str_eq(input, "GQE") {
            Ok(CurrencyCode::Gqe)
        } else if str_eq(input, "GRD") {
            Ok(CurrencyCode::Grd)
        } else if str_eq(input, "GTQ") {
            Ok(CurrencyCode::Gtq)
        } else if str_eq(input, "GWE") {
            Ok(CurrencyCode::Gwe)
        } else if str_eq(input, "GWP") {
            Ok(CurrencyCode::Gwp)
        } else if str_eq(input, "GYD") {
            Ok(CurrencyCode::Gyd)
        } else if str_eq(input, "HKD") {
            Ok(CurrencyCode::Hkd)
        } else if str_eq(input, "HNL") {
            Ok(CurrencyCode::Hnl)
        } else if str_eq(input, "HRD") {
            Ok(CurrencyCode::Hrd)
        } else if str_eq(input, "HRK") {
            Ok(CurrencyCode::Hrk)
        } else if str_eq(input, "HTG") {
            Ok(CurrencyCode::Htg)
        } else if str_eq(input, "HUF") {
            Ok(CurrencyCode::Huf)
        } else if str_eq(input, "IDR") {
            Ok(CurrencyCode::Idr)
        } else if str_eq(input, "IEP") {
            Ok(CurrencyCode::Iep)
        } else if str_eq(input, "ILP") {
            Ok(CurrencyCode::Ilp)
        } else if str_eq(input, "ILR") {
            Ok(CurrencyCode::Ilr)
        } else if str_eq(input, "ILS") {
            Ok(CurrencyCode::Ils)
        } else if str_eq(input, "INR") {
            Ok(CurrencyCode::Inr)
        } else if str_eq(input, "IQD") {
            Ok(CurrencyCode::Iqd)
        } else if str_eq(input, "IRR") {
            Ok(CurrencyCode::Irr)
        } else if str_eq(input, "ISJ") {
            Ok(CurrencyCode::Isj)
        } else if str_eq(input, "ISK") {
            Ok(CurrencyCode::Isk)
        } else if str_eq(input, "ITL") {
            Ok(CurrencyCode::Itl)
        } else if str_eq(input, "JMD") {
            Ok(CurrencyCode::Jmd)
        } else if str_eq(input, "JOD") {
            Ok(CurrencyCode::Jod)
        } else if str_eq(input, "JPY") {
            Ok(CurrencyCode::Jpy)
        } else if str_eq(input, "KES") {
            Ok(CurrencyCode::Kes)
        } else if str_eq(input, "KGS") {
            Ok(CurrencyCode::Kgs)
        } else if str_eq(input, "KHR") {
            Ok(CurrencyCode::Khr)
        } else if str_eq(input, "KMF") {
            Ok(CurrencyCode::Kmf)
        } else if str_eq(input, "KPW") {
            Ok(CurrencyCode::Kpw)
        } else if str_eq(input, "KRW") {
            Ok(CurrencyCode::Krw)
        } else if str_eq(input, "KWD") {
            Ok(CurrencyCode::Kwd)
        } else if str_eq(input, "KYD") {
            Ok(CurrencyCode::Kyd)
        } else if str_eq(input, "KZT") {
            Ok(CurrencyCode::Kzt)
        } else if str_eq(input, "LAJ") {
            Ok(CurrencyCode::Laj)
        } else if str_eq(input, "LAK") {
            Ok(CurrencyCode::Lak)
        } else if str_eq(input, "LBP") {
            Ok(CurrencyCode::Lbp)
        } else if str_eq(input, "LKR") {
            Ok(CurrencyCode::Lkr)
        } else if str_eq(input, "LRD") {
            Ok(CurrencyCode::Lrd)
        } else if str_eq(input, "LSL") {
            Ok(CurrencyCode::Lsl)
        } else if str_eq(input, "LSM") {
            Ok(CurrencyCode::Lsm)
        } else if str_eq(input, "LTL") {
            Ok(CurrencyCode::Ltl)
        } else if str_eq(input, "LTT") {
            Ok(CurrencyCode::Ltt)
        } else if str_eq(input, "LUC") {
            Ok(CurrencyCode::Luc)
        } else if str_eq(input, "LUF") {
            Ok(CurrencyCode::Luf)
        } else if str_eq(input, "LUL") {
            Ok(CurrencyCode::Lul)
        } else if str_eq(input, "LVL") {
            Ok(CurrencyCode::Lvl)
        } else if str_eq(input, "LVR") {
            Ok(CurrencyCode::Lvr)
        } else if str_eq(input, "LYD") {
            Ok(CurrencyCode::Lyd)
        } else if str_eq(input, "MAD") {
            Ok(CurrencyCode::Mad)
        } else if str_eq(input, "MDL") {
            Ok(CurrencyCode::Mdl)
        } else if str_eq(input, "MGA") {
            Ok(CurrencyCode::Mga)
        } else if str_eq(input, "MGF") {
            Ok(CurrencyCode::Mgf)
        } else if str_eq(input, "MKD") {
            Ok(CurrencyCode::Mkd)
        } else if str_eq(input, "MLF") {
            Ok(CurrencyCode::Mlf)
        } else if str_eq(input, "MMK") {
            Ok(CurrencyCode::Mmk)
        } else if str_eq(input, "MNT") {
            Ok(CurrencyCode::Mnt)
        } else if str_eq(input, "MOP") {
            Ok(CurrencyCode::Mop)
        } else if str_eq(input, "MRO") {
            Ok(CurrencyCode::Mro)
        } else if str_eq(input, "MRU") {
            Ok(CurrencyCode::Mru)
        } else if str_eq(input, "MTL") {
            Ok(CurrencyCode::Mtl)
        } else if str_eq(input, "MTP") {
            Ok(CurrencyCode::Mtp)
        } else if str_eq(input, "MUR") {
            Ok(CurrencyCode::Mur)
        } else if str_eq(input, "MVQ") {
            Ok(CurrencyCode::Mvq)
        } else if str_eq(input, "MVR") {
            Ok(CurrencyCode::Mvr)
        } else if str_eq(input, "MWK") {
            Ok(CurrencyCode::Mwk)
        } else if str_eq(input, "MXN") {
            Ok(CurrencyCode::Mxn)
        } else if str_eq(input, "MXP") {
            Ok(CurrencyCode::Mxp)
        } else if str_eq(input, "MXV") {
            Ok(CurrencyCode::Mxv)
        } else if str_eq(input, "MYR") {
            Ok(CurrencyCode::Myr)
        } else if str_eq(input, "MZE") {
            Ok(CurrencyCode::Mze)
        } else if str_eq(input, "MZM") {
            Ok(CurrencyCode::Mzm)
        } else if str_eq(input, "MZN") {
            Ok(CurrencyCode::Mzn)
        } else if str_eq(input, "NAD") {
            Ok(CurrencyCode::Nad)
        } else if str_eq(input, "NGN") {
            Ok(CurrencyCode::Ngn)
        } else if str_eq(input, "NIC") {
            Ok(CurrencyCode::Nic)
        } else if str_eq(input, "NIO") {
            Ok(CurrencyCode::Nio)
        } else if str_eq(input, "NLG") {
            Ok(CurrencyCode::Nlg)
        } else if str_eq(input, "NOK") {
            Ok(CurrencyCode::Nok)
        } else if str_eq(input, "NPR") {
            Ok(CurrencyCode::Npr)
        } else if str_eq(input, "NZD") {
            Ok(CurrencyCode::Nzd)
        } else if str_eq(input, "OMR") {
            Ok(CurrencyCode::Omr)
        } else if str_eq(input, "PAB") {
            Ok(CurrencyCode::Pab)
        } else if str_eq(input, "PEH") {
            Ok(CurrencyCode::Peh)
        } else if str_eq(input, "PEI") {
            Ok(CurrencyCode::Pei)
        } else if str_eq(input, "PEN") {
            Ok(CurrencyCode::Pen)
        } else if str_eq(input, "PES") {
            Ok(CurrencyCode::Pes)
        } else if str_eq(input, "PGK") {
            Ok(CurrencyCode::Pgk)
        } else if str_eq(input, "PHP") {
            Ok(CurrencyCode::Php)
        } else if str_eq(input, "PKR") {
            Ok(CurrencyCode::Pkr)
        } else if str_eq(input, "PLN") {
            Ok(CurrencyCode::Pln)
        } else if str_eq(input, "PLZ") {
            Ok(CurrencyCode::Plz)
        } else if str_eq(input, "PTE") {
            Ok(CurrencyCode::Pte)
        } else if str_eq(input, "PYG") {
            Ok(CurrencyCode::Pyg)
        } else if str_eq(input, "QAR") {
            Ok(CurrencyCode::Qar)
        } else if str_eq(input, "RHD") {
            Ok(CurrencyCode::Rhd)
        } else if str_eq(input, "ROK") {
            Ok(CurrencyCode::Rok)
        } else if str_eq(input, "ROL") {
            Ok(CurrencyCode::Rol)
        } else if str_eq(input, "RON") {
            Ok(CurrencyCode::Ron)
        } else if str_eq(input, "RSD") {
            Ok(CurrencyCode::Rsd)
        } else if str_eq(input, "RUB") {
            Ok(CurrencyCode::Rub)
        } else if str_eq(input, "RUR") {
            Ok(CurrencyCode::Rur)
        } else if str_eq(input, "RWF") {
            Ok(CurrencyCode::Rwf)
        } else if str_eq(input, "SAR") {
            Ok(CurrencyCode::Sar)
        } else if str_eq(input, "SBD") {
            Ok(CurrencyCode::Sbd)
        } else if str_eq(input, "SCR") {
            Ok(CurrencyCode::Scr)
        } else if str_eq(input, "SDD") {
            Ok(CurrencyCode::Sdd)
        } else if str_eq(input, "SDG") {
            Ok(CurrencyCode::Sdg)
        } else if str_eq(input, "SDP") {
            Ok(CurrencyCode::Sdp)
        } else if str_eq(input, "SEK") {
            Ok(CurrencyCode::Sek)
        } else if str_eq(input, "SGD") {
            Ok(CurrencyCode::Sgd)
        } else if str_eq(input, "SHP") {
            Ok(CurrencyCode::Shp)
        } else if str_eq(input, "SIT") {
            Ok(CurrencyCode::Sit)
        } else if str_eq(input, "SKK") {
            Ok(CurrencyCode::Skk)
        } else if str_eq(input, "SLL") {
            Ok(CurrencyCode::Sll)
        } else if str_eq(input, "SOS") {
            Ok(CurrencyCode::Sos)
        } else if str_eq(input, "SRD") {
            Ok(CurrencyCode::Srd)
        } else if str_eq(input, "SRG") {
            Ok(CurrencyCode::Srg)
        } else if str_eq(input, "SSP") {
            Ok(CurrencyCode::Ssp)
        } else if str_eq(input, "STD") {
            Ok(CurrencyCode::Std)
        } else if str_eq(input, "STN") {
            Ok(CurrencyCode::Stn)
        } else if str_eq(input, "SUR") {
            Ok(CurrencyCode::Sur)
        } else if str_eq(input, "SVC") {
            Ok(CurrencyCode::Svc)
        } else if str_eq(input, "SYP") {
            Ok(CurrencyCode::Syp)
        } else if str_eq(input, "SZL") {
            Ok(CurrencyCode::Szl)
        } else if str_eq(input, "THB") {
            Ok(CurrencyCode::Thb)
        } else if str_eq(input, "TJR") {
            Ok(CurrencyCode::Tjr)
        } else if str_eq(input, "TJS") {
            Ok(CurrencyCode::Tjs)
        } else if str_eq(input, "TMM") {
            Ok(CurrencyCode::Tmm)
        } else if str_eq(input, "TMT") {
            Ok(CurrencyCode::Tmt)
        } else if str_eq(input, "TND") {
            Ok(CurrencyCode::Tnd)
        } else if str_eq(input, "TOP") {
            Ok(CurrencyCode::Top)
        } else if str_eq(input, "TPE") {
            Ok(CurrencyCode::Tpe)
        } else if str_eq(input, "TRL") {
            Ok(CurrencyCode::Trl)
        } else if str_eq(input, "TRY") {
            Ok(CurrencyCode::Try)
        } else if str_eq(input, "TTD") {
            Ok(CurrencyCode::Ttd)
        } else if str_eq(input, "TWD") {
            Ok(CurrencyCode::Twd)
        } else if str_eq(input, "TZS") {
            Ok(CurrencyCode::Tzs)
        } else if str_eq(input, "UAH") {
            Ok(CurrencyCode::Uah)
        } else if str_eq(input, "UAK") {
            Ok(CurrencyCode::Uak)
        } else if str_eq(input, "UGS") {
            Ok(CurrencyCode::Ugs)
        } else if str_eq(input, "UGW") {
            Ok(CurrencyCode::Ugw)
        } else if str_eq(input, "UGX") {
            Ok(CurrencyCode::Ugx)
        } else if str_eq(input, "USD") {
            Ok(CurrencyCode::Usd)
        } else if str_eq(input, "USN") {
            Ok(CurrencyCode::Usn)
        } else if str_eq(input, "USS") {
            Ok(CurrencyCode::Uss)
        } else if str_eq(input, "UYI") {
            Ok(CurrencyCode::Uyi)
        } else if str_eq(input, "UYN") {
            Ok(CurrencyCode::Uyn)
        } else if str_eq(input, "UYP") {
            Ok(CurrencyCode::Uyp)
        } else if str_eq(input, "UYU") {
            Ok(CurrencyCode::Uyu)
        } else if str_eq(input, "UYW") {
            Ok(CurrencyCode::Uyw)
        } else if str_eq(input, "UZS") {
            Ok(CurrencyCode::Uzs)
        } else if str_eq(input, "VEB") {
            Ok(CurrencyCode::Veb)
        } else if str_eq(input, "VEF") {
            Ok(CurrencyCode::Vef)
        } else if str_eq(input, "VES") {
            Ok(CurrencyCode::Ves)
        } else if str_eq(input, "VNC") {
            Ok(CurrencyCode::Vnc)
        } else if str_eq(input, "VND") {
            Ok(CurrencyCode::Vnd)
        } else if str_eq(input, "VUV") {
            Ok(CurrencyCode::Vuv)
        } else if str_eq(input, "WST") {
            Ok(CurrencyCode::Wst)
        } else if str_eq(input, "XAF") {
            Ok(CurrencyCode::Xaf)
        } else if str_eq(input, "XAG") {
            Ok(CurrencyCode::Xag)
        } else if str_eq(input, "XAU") {
            Ok(CurrencyCode::Xau)
        } else if str_eq(input, "XBA") {
            Ok(CurrencyCode::Xba)
        } else if str_eq(input, "XBB") {
            Ok(CurrencyCode::Xbb)
        } else if str_eq(input, "XBC") {
            Ok(CurrencyCode::Xbc)
        } else if str_eq(input, "XBD") {
            Ok(CurrencyCode::Xbd)
        } else if str_eq(input, "XCD") {
            Ok(CurrencyCode::Xcd)
        } else if str_eq(input, "XDR") {
            Ok(CurrencyCode::Xdr)
        } else if str_eq(input, "XEU") {
            Ok(CurrencyCode::Xeu)
        } else if str_eq(input, "XFO") {
            Ok(CurrencyCode::Xfo)
        } else if str_eq(input, "XFU") {
            Ok(CurrencyCode::Xfu)
        } else if str_eq(input, "XOF") {
            Ok(CurrencyCode::Xof)
        } else if str_eq(input, "XPD") {
            Ok(CurrencyCode::Xpd)
        } else if str_eq(input, "XPF") {
            Ok(CurrencyCode::Xpf)
        } else if str_eq(input, "XPT") {
            Ok(CurrencyCode::Xpt)
        } else if str_eq(input, "XRE") {
            Ok(CurrencyCode::Xre)
        } else if str_eq(input, "XSU") {
            Ok(CurrencyCode::Xsu)
        } else if str_eq(input, "XTS") {
            Ok(CurrencyCode::Xts)
        } else if str_eq(input, "XUA") {
            Ok(CurrencyCode::Xua)
        } else if str_eq(input, "XXX") {
            Ok(CurrencyCode::Xxx)
        } else if str_eq(input, "YDD") {
            Ok(CurrencyCode::Ydd)
        } else if str_eq(input, "YER") {
            Ok(CurrencyCode::Yer)
        } else if str_eq(input, "YUD") {
            Ok(CurrencyCode::Yud)
        } else if str_eq(input, "YUM") {
            Ok(CurrencyCode::Yum)
        } else if str_eq(input, "YUN") {
            Ok(CurrencyCode::Yun)
        } else if str_eq(input, "ZAL") {
            Ok(CurrencyCode::Zal)
        } else if str_eq(input, "ZAR") {
            Ok(CurrencyCode::Zar)
        } else if str_eq(input, "ZMK") {
            Ok(CurrencyCode::Zmk)
        } else if str_eq(input, "ZMW") {
            Ok(CurrencyCode::Zmw)
        } else if str_eq(input, "ZRN") {
            Ok(CurrencyCode::Zrn)
        } else if str_eq(input, "ZRZ") {
            Ok(CurrencyCode::Zrz)
        } else if str_eq(input, "ZWC") {
            Ok(CurrencyCode::Zwc)
        } else if str_eq(input, "ZWD") {
            Ok(CurrencyCode::Zwd)
        } else if str_eq(input, "ZWL") {
            Ok(CurrencyCode::Zwl)
        } else if str_eq(input, "ZWN") {
            Ok(CurrencyCode::Zwn)
        } else if str_eq(input, "ZWR") {
            Ok(CurrencyCode::Zwr)
        } else {
            Err(ThothError::VariantNotFound)
        }
    }
}

impl Default for CurrencyCode {
    /// The default variant: `Gbp`.
    fn default() -> (r: CurrencyCode)
        ensures
            r == CurrencyCode::Gbp,
    {
        CurrencyCode::Gbp
    }
}
/// A sortable column of the prices list.
#[derive(Clone, Debug, PartialEq)]
pub enum PriceField {
    PriceId,
    PublicationId,
    CurrencyCode,
    UnitPrice,
    CreatedAt,
    UpdatedAt,
}

impl PriceField {
}

} // verus!
