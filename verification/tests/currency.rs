//! The ISO 4217 currency list: default, display strings and parsing.

use thoth_export::model::price::CurrencyCode;

#[test]
fn test_currencycode_default() {
    let currencycode: CurrencyCode = Default::default();
    assert_eq!(currencycode, CurrencyCode::Gbp);
}

#[test]
fn test_currencycode_display() {
    assert_eq!(CurrencyCode::Adp.to_str(), "ADP");
    assert_eq!(CurrencyCode::Aed.to_str(), "AED");
    assert_eq!(CurrencyCode::Afa.to_str(), "AFA");
    assert_eq!(CurrencyCode::Afn.to_str(), "AFN");
    assert_eq!(CurrencyCode::Alk.to_str(), "ALK");
    assert_eq!(CurrencyCode::All.to_str(), "ALL");
    assert_eq!(CurrencyCode::Amd.to_str(), "AMD");
    assert_eq!(CurrencyCode::Ang.to_str(), "ANG");
    assert_eq!(CurrencyCode::Aoa.to_str(), "AOA");
    assert_eq!(CurrencyCode::Aok.to_str(), "AOK");
    assert_eq!(CurrencyCode::Aon.to_str(), "AON");
    assert_eq!(CurrencyCode::Aor.to_str(), "AOR");
    assert_eq!(CurrencyCode::Ara.to_str(), "ARA");
    assert_eq!(CurrencyCode::Arp.to_str(), "ARP");
    assert_eq!(CurrencyCode::Ars.to_str(), "ARS");
    assert_eq!(CurrencyCode::Ary.to_str(), "ARY");
    assert_eq!(CurrencyCode::Ats.to_str(), "ATS");
    assert_eq!(CurrencyCode::Aud.to_str(), "AUD");
    assert_eq!(CurrencyCode::Awg.to_str(), "AWG");
    assert_eq!(CurrencyCode::Aym.to_str(), "AYM");
    assert_eq!(CurrencyCode::Azm.to_str(), "AZM");
    assert_eq!(CurrencyCode::Azn.to_str(), "AZN");
    assert_eq!(CurrencyCode::Bad.to_str(), "BAD");
    assert_eq!(CurrencyCode::Bam.to_str(), "BAM");
    assert_eq!(CurrencyCode::Bbd.to_str(), "BBD");
    assert_eq!(CurrencyCode::Bdt.to_str(), "BDT");
    assert_eq!(CurrencyCode::Bec.to_str(), "BEC");
    assert_eq!(CurrencyCode::Bef.to_str(), "BEF");
    assert_eq!(CurrencyCode::Bel.to_str(), "BEL");
    assert_eq!(CurrencyCode::Bgj.to_str(), "BGJ");
    assert_eq!(CurrencyCode::Bgk.to_str(), "BGK");
    assert_eq!(CurrencyCode::Bgl.to_str(), "BGL");
    assert_eq!(CurrencyCode::Bgn.to_str(), "BGN");
    assert_eq!(CurrencyCode::Bhd.to_str(), "BHD");
    assert_eq!(CurrencyCode::Bif.to_str(), "BIF");
    assert_eq!(CurrencyCode::Bmd.to_str(), "BMD");
    assert_eq!(CurrencyCode::Bnd.to_str(), "BND");
    assert_eq!(CurrencyCode::Bob.to_str(), "BOB");
    assert_eq!(CurrencyCode::Bop.to_str(), "BOP");
    assert_eq!(CurrencyCode::Bov.to_str(), "BOV");
    assert_eq!(CurrencyCode::Brb.to_str(), "BRB");
    assert_eq!(CurrencyCode::Brc.to_str(), "BRC");
    assert_eq!(CurrencyCode::Bre.to_str(), "BRE");
    assert_eq!(CurrencyCode::Brl.to_str(), "BRL");
    assert_eq!(CurrencyCode::Brn.to_str(), "BRN");
    assert_eq!(CurrencyCode::Brr.to_str(), "BRR");
    assert_eq!(CurrencyCode::Bsd.to_str(), "BSD");
    assert_eq!(CurrencyCode::Btn.to_str(), "BTN");
    assert_eq!(CurrencyCode::Buk.to_str(), "BUK");
    assert_eq!(CurrencyCode::Bwp.to_str(), "BWP");
    assert_eq!(CurrencyCode::Byb.to_str(), "BYB");
    assert_eq!(CurrencyCode::Byn.to_str(), "BYN");
    assert_eq!(CurrencyCode::Byr.to_str(), "BYR");
    assert_eq!(CurrencyCode::Bzd.to_str(), "BZD");
    assert_eq!(CurrencyCode::Cad.to_str(), "CAD");
    assert_eq!(CurrencyCode::Cdf.to_str(), "CDF");
    assert_eq!(CurrencyCode::Chc.to_str(), "CHC");
    assert_eq!(CurrencyCode::Che.to_str(), "CHE");
    assert_eq!(CurrencyCode::Chf.to_str(), "CHF");
    assert_eq!(CurrencyCode::Chw.to_str(), "CHW");
    assert_eq!(CurrencyCode::Clf.to_str(), "CLF");
    assert_eq!(CurrencyCode::Clp.to_str(), "CLP");
    assert_eq!(CurrencyCode::Cny.to_str(), "CNY");
    assert_eq!(CurrencyCode::Cop.to_str(), "COP");
    assert_eq!(CurrencyCode::Cou.to_str(), "COU");
    assert_eq!(CurrencyCode::Crc.to_str(), "CRC");
    assert_eq!(CurrencyCode::Csd.to_str(), "CSD");
    assert_eq!(CurrencyCode::Csj.to_str(), "CSJ");
    assert_eq!(CurrencyCode::Csk.to_str(), "CSK");
    assert_eq!(CurrencyCode::Cuc.to_str(), "CUC");
    assert_eq!(CurrencyCode::Cup.to_str(), "CUP");
    assert_eq!(CurrencyCode::Cve.to_str(), "CVE");
    assert_eq!(CurrencyCode::Cyp.to_str(), "CYP");
    assert_eq!(CurrencyCode::Czk.to_str(), "CZK");
    assert_eq!(CurrencyCode::Ddm.to_str(), "DDM");
    assert_eq!(CurrencyCode::Dem.to_str(), "DEM");
    assert_eq!(CurrencyCode::Djf.to_str(), "DJF");
    assert_eq!(CurrencyCode::Dkk.to_str(), "DKK");
    assert_eq!(CurrencyCode::Dop.to_str(), "DOP");
    assert_eq!(CurrencyCode::Dzd.to_str(), "DZD");
    assert_eq!(CurrencyCode::Ecs.to_str(), "ECS");
    assert_eq!(CurrencyCode::Ecv.to_str(), "ECV");
    assert_eq!(CurrencyCode::Eek.to_str(), "EEK");
    assert_eq!(CurrencyCode::Egp.to_str(), "EGP");
    assert_eq!(CurrencyCode::Ern.to_str(), "ERN");
    assert_eq!(CurrencyCode::Esa.to_str(), "ESA");
    assert_eq!(CurrencyCode::Esb.to_str(), "ESB");
    assert_eq!(CurrencyCode::Esp.to_str(), "ESP");
    assert_eq!(CurrencyCode::Etb.to_str(), "ETB");
    assert_eq!(CurrencyCode::Eur.to_str(), "EUR");
    assert_eq!(CurrencyCode::Fim.to_str(), "FIM");
    assert_eq!(CurrencyCode::Fjd.to_str(), "FJD");
    assert_eq!(CurrencyCode::Fkp.to_str(), "FKP");
    assert_eq!(CurrencyCode::Frf.to_str(), "FRF");
    assert_eq!(CurrencyCode::Gbp.to_str(), "GBP");
    assert_eq!(CurrencyCode::Gek.to_str(), "GEK");
    assert_eq!(CurrencyCode::Gel.to_str(), "GEL");
    assert_eq!(CurrencyCode::Ghc.to_str(), "GHC");
    assert_eq!(CurrencyCode::Ghp.to_str(), "GHP");
    assert_eq!(CurrencyCode::Ghs.to_str(), "GHS");
    assert_eq!(CurrencyCode::Gip.to_str(), "GIP");
    assert_eq!(CurrencyCode::Gmd.to_str(), "GMD");
    assert_eq!(CurrencyCode::Gne.to_str(), "GNE");
    assert_eq!(CurrencyCode::Gnf.to_str(), "GNF");
    assert_eq!(CurrencyCode::Gns.to_str(), "GNS");
    assert_eq!(CurrencyCode::Gqe.to_str(), "GQE");
    assert_eq!(CurrencyCode::Grd.to_str(), "GRD");
    assert_eq!(CurrencyCode::Gtq.to_str(), "GTQ");
    assert_eq!(CurrencyCode::Gwe.to_str(), "GWE");
    assert_eq!(CurrencyCode::Gwp.to_str(), "GWP");
    assert_eq!(CurrencyCode::Gyd.to_str(), "GYD");
    assert_eq!(CurrencyCode::Hkd.to_str(), "HKD");
    assert_eq!(CurrencyCode::Hnl.to_str(), "HNL");
    assert_eq!(CurrencyCode::Hrd.to_str(), "HRD");
    assert_eq!(CurrencyCode::Hrk.to_str(), "HRK");
    assert_eq!(CurrencyCode::Htg.to_str(), "HTG");
    assert_eq!(CurrencyCode::Huf.to_str(), "HUF");
    assert_eq!(CurrencyCode::Idr.to_str(), "IDR");
    assert_eq!(CurrencyCode::Iep.to_str(), "IEP");
    assert_eq!(CurrencyCode::Ilp.to_str(), "ILP");
    assert_eq!(CurrencyCode::Ilr.to_str(), "ILR");
    assert_eq!(CurrencyCode::Ils.to_str(), "ILS");
    assert_eq!(CurrencyCode::Inr.to_str(), "INR");
    assert_eq!(CurrencyCode::Iqd.to_str(), "IQD");
    assert_eq!(CurrencyCode::Irr.to_str(), "IRR");
    assert_eq!(CurrencyCode::Isj.to_str(), "ISJ");
    assert_eq!(CurrencyCode::Isk.to_str(), "ISK");
    assert_eq!(CurrencyCode::Itl.to_str(), "ITL");
    assert_eq!(CurrencyCode::Jmd.to_str(), "JMD");
    assert_eq!(CurrencyCode::Jod.to_str(), "JOD");
    assert_eq!(CurrencyCode::Jpy.to_str(), "JPY");
    assert_eq!(CurrencyCode::Kes.to_str(), "KES");
    assert_eq!(CurrencyCode::Kgs.to_str(), "KGS");
    assert_eq!(CurrencyCode::Khr.to_str(), "KHR");
    assert_eq!(CurrencyCode::Kmf.to_str(), "KMF");
    assert_eq!(CurrencyCode::Kpw.to_str(), "KPW");
    assert_eq!(CurrencyCode::Krw.to_str(), "KRW");
    assert_eq!(CurrencyCode::Kwd.to_str(), "KWD");
    assert_eq!(CurrencyCode::Kyd.to_str(), "KYD");
    assert_eq!(CurrencyCode::Kzt.to_str(), "KZT");
    assert_eq!(CurrencyCode::Laj.to_str(), "LAJ");
    assert_eq!(CurrencyCode::Lak.to_str(), "LAK");
    assert_eq!(CurrencyCode::Lbp.to_str(), "LBP");
    assert_eq!(CurrencyCode::Lkr.to_str(), "LKR");
    assert_eq!(CurrencyCode::Lrd.to_str(), "LRD");
    assert_eq!(CurrencyCode::Lsl.to_str(), "LSL");
    assert_eq!(CurrencyCode::Lsm.to_str(), "LSM");
    assert_eq!(CurrencyCode::Ltl.to_str(), "LTL");
    assert_eq!(CurrencyCode::Ltt.to_str(), "LTT");
    assert_eq!(CurrencyCode::Luc.to_str(), "LUC");
    assert_eq!(CurrencyCode::Luf.to_str(), "LUF");
    assert_eq!(CurrencyCode::Lul.to_str(), "LUL");
    assert_eq!(CurrencyCode::Lvl.to_str(), "LVL");
    assert_eq!(CurrencyCode::Lvr.to_str(), "LVR");
    assert_eq!(CurrencyCode::Lyd.to_str(), "LYD");
    assert_eq!(CurrencyCode::Mad.to_str(), "MAD");
    assert_eq!(CurrencyCode::Mdl.to_str(), "MDL");
    assert_eq!(CurrencyCode::Mga.to_str(), "MGA");
    assert_eq!(CurrencyCode::Mgf.to_str(), "MGF");
    assert_eq!(CurrencyCode::Mkd.to_str(), "MKD");
    assert_eq!(CurrencyCode::Mlf.to_str(), "MLF");
    assert_eq!(CurrencyCode::Mmk.to_str(), "MMK");
    assert_eq!(CurrencyCode::Mnt.to_str(), "MNT");
    assert_eq!(CurrencyCode::Mop.to_str(), "MOP");
    assert_eq!(CurrencyCode::Mro.to_str(), "MRO");
    assert_eq!(CurrencyCode::Mru.to_str(), "MRU");
    assert_eq!(CurrencyCode::Mtl.to_str(), "MTL");
    assert_eq!(CurrencyCode::Mtp.to_str(), "MTP");
    assert_eq!(CurrencyCode::Mur.to_str(), "MUR");
    assert_eq!(CurrencyCode::Mvq.to_str(), "MVQ");
    assert_eq!(CurrencyCode::Mvr.to_str(), "MVR");
    assert_eq!(CurrencyCode::Mwk.to_str(), "MWK");
    assert_eq!(CurrencyCode::Mxn.to_str(), "MXN");
    assert_eq!(CurrencyCode::Mxp.to_str(), "MXP");
    assert_eq!(CurrencyCode::Mxv.to_str(), "MXV");
    assert_eq!(CurrencyCode::Myr.to_str(), "MYR");
    assert_eq!(CurrencyCode::Mze.to_str(), "MZE");
    assert_eq!(CurrencyCode::Mzm.to_str(), "MZM");
    assert_eq!(CurrencyCode::Mzn.to_str(), "MZN");
    assert_eq!(CurrencyCode::Nad.to_str(), "NAD");
    assert_eq!(CurrencyCode::Ngn.to_str(), "NGN");
    assert_eq!(CurrencyCode::Nic.to_str(), "NIC");
    assert_eq!(CurrencyCode::Nio.to_str(), "NIO");
    assert_eq!(CurrencyCode::Nlg.to_str(), "NLG");
    assert_eq!(CurrencyCode::Nok.to_str(), "NOK");
    assert_eq!(CurrencyCode::Npr.to_str(), "NPR");
    assert_eq!(CurrencyCode::Nzd.to_str(), "NZD");
    assert_eq!(CurrencyCode::Omr.to_str(), "OMR");
    assert_eq!(CurrencyCode::Pab.to_str(), "PAB");
    assert_eq!(CurrencyCode::Peh.to_str(), "PEH");
    assert_eq!(CurrencyCode::Pei.to_str(), "PEI");
    assert_eq!(CurrencyCode::Pen.to_str(), "PEN");
    assert_eq!(CurrencyCode::Pes.to_str(), "PES");
    assert_eq!(CurrencyCode::Pgk.to_str(), "PGK");
    assert_eq!(CurrencyCode::Php.to_str(), "PHP");
    assert_eq!(CurrencyCode::Pkr.to_str(), "PKR");
    assert_eq!(CurrencyCode::Pln.to_str(), "PLN");
    assert_eq!(CurrencyCode::Plz.to_str(), "PLZ");
    assert_eq!(CurrencyCode::Pte.to_str(), "PTE");
    assert_eq!(CurrencyCode::Pyg.to_str(), "PYG");
    assert_eq!(CurrencyCode::Qar.to_str(), "QAR");
    assert_eq!(CurrencyCode::Rhd.to_str(), "RHD");
    assert_eq!(CurrencyCode::Rok.to_str(), "ROK");
    assert_eq!(CurrencyCode::Rol.to_str(), "ROL");
    assert_eq!(CurrencyCode::Ron.to_str(), "RON");
    assert_eq!(CurrencyCode::Rsd.to_str(), "RSD");
    assert_eq!(CurrencyCode::Rub.to_str(), "RUB");
    assert_eq!(CurrencyCode::Rur.to_str(), "RUR");
    assert_eq!(CurrencyCode::Rwf.to_str(), "RWF");
    assert_eq!(CurrencyCode::Sar.to_str(), "SAR");
    assert_eq!(CurrencyCode::Sbd.to_str(), "SBD");
    assert_eq!(CurrencyCode::Scr.to_str(), "SCR");
    assert_eq!(CurrencyCode::Sdd.to_str(), "SDD");
    assert_eq!(CurrencyCode::Sdg.to_str(), "SDG");
    assert_eq!(CurrencyCode::Sdp.to_str(), "SDP");
    assert_eq!(CurrencyCode::Sek.to_str(), "SEK");
    assert_eq!(CurrencyCode::Sgd.to_str(), "SGD");
    assert_eq!(CurrencyCode::Shp.to_str(), "SHP");
    assert_eq!(CurrencyCode::Sit.to_str(), "SIT");
    assert_eq!(CurrencyCode::Skk.to_str(), "SKK");
    assert_eq!(CurrencyCode::Sll.to_str(), "SLL");
    assert_eq!(CurrencyCode::Sos.to_str(), "SOS");
    assert_eq!(CurrencyCode::Srd.to_str(), "SRD");
    assert_eq!(CurrencyCode::Srg.to_str(), "SRG");
    assert_eq!(CurrencyCode::Ssp.to_str(), "SSP");
    assert_eq!(CurrencyCode::Std.to_str(), "STD");
    assert_eq!(CurrencyCode::Stn.to_str(), "STN");
    assert_eq!(CurrencyCode::Sur.to_str(), "SUR");
    assert_eq!(CurrencyCode::Svc.to_str(), "SVC");
    assert_eq!(CurrencyCode::Syp.to_str(), "SYP");
    assert_eq!(CurrencyCode::Szl.to_str(), "SZL");
    assert_eq!(CurrencyCode::Thb.to_str(), "THB");
    assert_eq!(CurrencyCode::Tjr.to_str(), "TJR");
    assert_eq!(CurrencyCode::Tjs.to_str(), "TJS");
    assert_eq!(CurrencyCode::Tmm.to_str(), "TMM");
    assert_eq!(CurrencyCode::Tmt.to_str(), "TMT");
    assert_eq!(CurrencyCode::Tnd.to_str(), "TND");
    assert_eq!(CurrencyCode::Top.to_str(), "TOP");
    assert_eq!(CurrencyCode::Tpe.to_str(), "TPE");
    assert_eq!(CurrencyCode::Trl.to_str(), "TRL");
    assert_eq!(CurrencyCode::Try.to_str(), "TRY");
    assert_eq!(CurrencyCode::Ttd.to_str(), "TTD");
    assert_eq!(CurrencyCode::Twd.to_str(), "TWD");
    assert_eq!(CurrencyCode::Tzs.to_str(), "TZS");
    assert_eq!(CurrencyCode::Uah.to_str(), "UAH");
    assert_eq!(CurrencyCode::Uak.to_str(), "UAK");
    assert_eq!(CurrencyCode::Ugs.to_str(), "UGS");
    assert_eq!(CurrencyCode::Ugw.to_str(), "UGW");
    assert_eq!(CurrencyCode::Ugx.to_str(), "UGX");
    assert_eq!(CurrencyCode::Usd.to_str(), "USD");
    assert_eq!(CurrencyCode::Usn.to_str(), "USN");
    assert_eq!(CurrencyCode::Uss.to_str(), "USS");
    assert_eq!(CurrencyCode::Uyi.to_str(), "UYI");
    assert_eq!(CurrencyCode::Uyn.to_str(), "UYN");
    assert_eq!(CurrencyCode::Uyp.to_str(), "UYP");
    assert_eq!(CurrencyCode::Uyu.to_str(), "UYU");
    assert_eq!(CurrencyCode::Uyw.to_str(), "UYW");
    assert_eq!(CurrencyCode::Uzs.to_str(), "UZS");
    assert_eq!(CurrencyCode::Veb.to_str(), "VEB");
    assert_eq!(CurrencyCode::Vef.to_str(), "VEF");
    assert_eq!(CurrencyCode::Ves.to_str(), "VES");
    assert_eq!(CurrencyCode::Vnc.to_str(), "VNC");
    assert_eq!(CurrencyCode::Vnd.to_str(), "VND");
    assert_eq!(CurrencyCode::Vuv.to_str(), "VUV");
    assert_eq!(CurrencyCode::Wst.to_str(), "WST");
    assert_eq!(CurrencyCode::Xaf.to_str(), "XAF");
    assert_eq!(CurrencyCode::Xag.to_str(), "XAG");
    assert_eq!(CurrencyCode::Xau.to_str(), "XAU");
    assert_eq!(CurrencyCode::Xba.to_str(), "XBA");
    assert_eq!(CurrencyCode::Xbb.to_str(), "XBB");
    assert_eq!(CurrencyCode::Xbc.to_str(), "XBC");
    assert_eq!(CurrencyCode::Xbd.to_str(), "XBD");
    assert_eq!(CurrencyCode::Xcd.to_str(), "XCD");
    assert_eq!(CurrencyCode::Xdr.to_str(), "XDR");
    assert_eq!(CurrencyCode::Xeu.to_str(), "XEU");
    assert_eq!(CurrencyCode::Xfo.to_str(), "XFO");
    assert_eq!(CurrencyCode::Xfu.to_str(), "XFU");
    assert_eq!(CurrencyCode::Xof.to_str(), "XOF");
    assert_eq!(CurrencyCode::Xpd.to_str(), "XPD");
    assert_eq!(CurrencyCode::Xpf.to_str(), "XPF");
    assert_eq!(CurrencyCode::Xpt.to_str(), "XPT");
    assert_eq!(CurrencyCode::Xre.to_str(), "XRE");
    assert_eq!(CurrencyCode::Xsu.to_str(), "XSU");
    assert_eq!(CurrencyCode::Xts.to_str(), "XTS");
    assert_eq!(CurrencyCode::Xua.to_str(), "XUA");
    assert_eq!(CurrencyCode::Xxx.to_str(), "XXX");
    assert_eq!(CurrencyCode::Ydd.to_str(), "YDD");
    assert_eq!(CurrencyCode::Yer.to_str(), "YER");
    assert_eq!(CurrencyCode::Yud.to_str(), "YUD");
    assert_eq!(CurrencyCode::Yum.to_str(), "YUM");
    assert_eq!(CurrencyCode::Yun.to_str(), "YUN");
    assert_eq!(CurrencyCode::Zal.to_str(), "ZAL");
    assert_eq!(CurrencyCode::Zar.to_str(), "ZAR");
    assert_eq!(CurrencyCode::Zmk.to_str(), "ZMK");
    assert_eq!(CurrencyCode::Zmw.to_str(), "ZMW");
    assert_eq!(CurrencyCode::Zrn.to_str(), "ZRN");
    assert_eq!(CurrencyCode::Zrz.to_str(), "ZRZ");
    assert_eq!(CurrencyCode::Zwc.to_str(), "ZWC");
    assert_eq!(CurrencyCode::Zwd.to_str(), "ZWD");
    assert_eq!(CurrencyCode::Zwl.to_str(), "ZWL");
    assert_eq!(CurrencyCode::Zwn.to_str(), "ZWN");
    assert_eq!(CurrencyCode::Zwr.to_str(), "ZWR");
}

#[test]
fn test_currencycode_fromstr() {
    assert_eq!(CurrencyCode::from_str("ADP").unwrap(), CurrencyCode::Adp);
    assert_eq!(CurrencyCode::from_str("AED").unwrap(), CurrencyCode::Aed);
    assert_eq!(CurrencyCode::from_str("AFA").unwrap(), CurrencyCode::Afa);
    assert_eq!(CurrencyCode::from_str("AFN").unwrap(), CurrencyCode::Afn);
    assert_eq!(CurrencyCode::from_str("ALK").unwrap(), CurrencyCode::Alk);
    assert_eq!(CurrencyCode::from_str("ALL").unwrap(), CurrencyCode::All);
    assert_eq!(CurrencyCode::from_str("AMD").unwrap(), CurrencyCode::Amd);
    assert_eq!(CurrencyCode::from_str("ANG").unwrap(), CurrencyCode::Ang);
    assert_eq!(CurrencyCode::from_str("AOA").unwrap(), CurrencyCode::Aoa);
    assert_eq!(CurrencyCode::from_str("AOK").unwrap(), CurrencyCode::Aok);
    assert_eq!(CurrencyCode::from_str("AON").unwrap(), CurrencyCode::Aon);
    assert_eq!(CurrencyCode::from_str("AOR").unwrap(), CurrencyCode::Aor);
    assert_eq!(CurrencyCode::from_str("ARA").unwrap(), CurrencyCode::Ara);
    assert_eq!(CurrencyCode::from_str("ARP").unwrap(), CurrencyCode::Arp);
    assert_eq!(CurrencyCode::from_str("ARS").unwrap(), CurrencyCode::Ars);
    assert_eq!(CurrencyCode::from_str("ARY").unwrap(), CurrencyCode::Ary);
    assert_eq!(CurrencyCode::from_str("ATS").unwrap(), CurrencyCode::Ats);
    assert_eq!(CurrencyCode::from_str("AUD").unwrap(), CurrencyCode::Aud);
    assert_eq!(CurrencyCode::from_str("AWG").unwrap(), CurrencyCode::Awg);
    assert_eq!(CurrencyCode::from_str("AYM").unwrap(), CurrencyCode::Aym);
    assert_eq!(CurrencyCode::from_str("AZM").unwrap(), CurrencyCode::Azm);
    assert_eq!(CurrencyCode::from_str("AZN").unwrap(), CurrencyCode::Azn);
    assert_eq!(CurrencyCode::from_str("BAD").unwrap(), CurrencyCode::Bad);
    assert_eq!(CurrencyCode::from_str("BAM").unwrap(), CurrencyCode::Bam);
    assert_eq!(CurrencyCode::from_str("BBD").unwrap(), CurrencyCode::Bbd);
    assert_eq!(CurrencyCode::from_str("BDT").unwrap(), CurrencyCode::Bdt);
    assert_eq!(CurrencyCode::from_str("BEC").unwrap(), CurrencyCode::Bec);
    assert_eq!(CurrencyCode::from_str("BEF").unwrap(), CurrencyCode::Bef);
    assert_eq!(CurrencyCode::from_str("BEL").unwrap(), CurrencyCode::Bel);
    assert_eq!(CurrencyCode::from_str("BGJ").unwrap(), CurrencyCode::Bgj);
    assert_eq!(CurrencyCode::from_str("BGK").unwrap(), CurrencyCode::Bgk);
    assert_eq!(CurrencyCode::from_str("BGL").unwrap(), CurrencyCode::Bgl);
    assert_eq!(CurrencyCode::from_str("BGN").unwrap(), CurrencyCode::Bgn);
    assert_eq!(CurrencyCode::from_str("BHD").unwrap(), CurrencyCode::Bhd);
    assert_eq!(CurrencyCode::from_str("BIF").unwrap(), CurrencyCode::Bif);
    assert_eq!(CurrencyCode::from_str("BMD").unwrap(), CurrencyCode::Bmd);
    assert_eq!(CurrencyCode::from_str("BND").unwrap(), CurrencyCode::Bnd);
    assert_eq!(CurrencyCode::from_str("BOB").unwrap(), CurrencyCode::Bob);
    assert_eq!(CurrencyCode::from_str("BOP").unwrap(), CurrencyCode::Bop);
    assert_eq!(CurrencyCode::from_str("BOV").unwrap(), CurrencyCode::Bov);
    assert_eq!(CurrencyCode::from_str("BRB").unwrap(), CurrencyCode::Brb);
    assert_eq!(CurrencyCode::from_str("BRC").unwrap(), CurrencyCode::Brc);
    assert_eq!(CurrencyCode::from_str("BRE").unwrap(), CurrencyCode::Bre);
    assert_eq!(CurrencyCode::from_str("BRL").unwrap(), CurrencyCode::Brl);
    assert_eq!(CurrencyCode::from_str("BRN").unwrap(), CurrencyCode::Brn);
    assert_eq!(CurrencyCode::from_str("BRR").unwrap(), CurrencyCode::Brr);
    assert_eq!(CurrencyCode::from_str("BSD").unwrap(), CurrencyCode::Bsd);
    assert_eq!(CurrencyCode::from_str("BTN").unwrap(), CurrencyCode::Btn);
    assert_eq!(CurrencyCode::from_str("BUK").unwrap(), CurrencyCode::Buk);
    assert_eq!(CurrencyCode::from_str("BWP").unwrap(), CurrencyCode::Bwp);
    assert_eq!(CurrencyCode::from_str("BYB").unwrap(), CurrencyCode::Byb);
    assert_eq!(CurrencyCode::from_str("BYN").unwrap(), CurrencyCode::Byn);
    assert_eq!(CurrencyCode::from_str("BYR").unwrap(), CurrencyCode::Byr);
    assert_eq!(CurrencyCode::from_str("BZD").unwrap(), CurrencyCode::Bzd);
    assert_eq!(CurrencyCode::from_str("CAD").unwrap(), CurrencyCode::Cad);
    assert_eq!(CurrencyCode::from_str("CDF").unwrap(), CurrencyCode::Cdf);
    assert_eq!(CurrencyCode::from_str("CHC").unwrap(), CurrencyCode::Chc);
    assert_eq!(CurrencyCode::from_str("CHE").unwrap(), CurrencyCode::Che);
    assert_eq!(CurrencyCode::from_str("CHF").unwrap(), CurrencyCode::Chf);
    assert_eq!(CurrencyCode::from_str("CHW").unwrap(), CurrencyCode::Chw);
    assert_eq!(CurrencyCode::from_str("CLF").unwrap(), CurrencyCode::Clf);
    assert_eq!(CurrencyCode::from_str("CLP").unwrap(), CurrencyCode::Clp);
    assert_eq!(CurrencyCode::from_str("CNY").unwrap(), CurrencyCode::Cny);
    assert_eq!(CurrencyCode::from_str("COP").unwrap(), CurrencyCode::Cop);
    assert_eq!(CurrencyCode::from_str("COU").unwrap(), CurrencyCode::Cou);
    assert_eq!(CurrencyCode::from_str("CRC").unwrap(), CurrencyCode::Crc);
    assert_eq!(CurrencyCode::from_str("CSD").unwrap(), CurrencyCode::Csd);
    assert_eq!(CurrencyCode::from_str("CSJ").unwrap(), CurrencyCode::Csj);
    assert_eq!(CurrencyCode::from_str("CSK").unwrap(), CurrencyCode::Csk);
    assert_eq!(CurrencyCode::from_str("CUC").unwrap(), CurrencyCode::Cuc);
    assert_eq!(CurrencyCode::from_str("CUP").unwrap(), CurrencyCode::Cup);
    assert_eq!(CurrencyCode::from_str("CVE").unwrap(), CurrencyCode::Cve);
    assert_eq!(CurrencyCode::from_str("CYP").unwrap(), CurrencyCode::Cyp);
    assert_eq!(CurrencyCode::from_str("CZK").unwrap(), CurrencyCode::Czk);
    assert_eq!(CurrencyCode::from_str("DDM").unwrap(), CurrencyCode::Ddm);
    assert_eq!(CurrencyCode::from_str("DEM").unwrap(), CurrencyCode::Dem);
    assert_eq!(CurrencyCode::from_str("DJF").unwrap(), CurrencyCode::Djf);
    assert_eq!(CurrencyCode::from_str("DKK").unwrap(), CurrencyCode::Dkk);
    assert_eq!(CurrencyCode::from_str("DOP").unwrap(), CurrencyCode::Dop);
    assert_eq!(CurrencyCode::from_str("DZD").unwrap(), CurrencyCode::Dzd);
    assert_eq!(CurrencyCode::from_str("ECS").unwrap(), CurrencyCode::Ecs);
    assert_eq!(CurrencyCode::from_str("ECV").unwrap(), CurrencyCode::Ecv);
    assert_eq!(CurrencyCode::from_str("EEK").unwrap(), CurrencyCode::Eek);
    assert_eq!(CurrencyCode::from_str("EGP").unwrap(), CurrencyCode::Egp);
    assert_eq!(CurrencyCode::from_str("ERN").unwrap(), CurrencyCode::Ern);
    assert_eq!(CurrencyCode::from_str("ESA").unwrap(), CurrencyCode::Esa);
    assert_eq!(CurrencyCode::from_str("ESB").unwrap(), CurrencyCode::Esb);
    assert_eq!(CurrencyCode::from_str("ESP").unwrap(), CurrencyCode::Esp);
    assert_eq!(CurrencyCode::from_str("ETB").unwrap(), CurrencyCode::Etb);
    assert_eq!(CurrencyCode::from_str("EUR").unwrap(), CurrencyCode::Eur);
    assert_eq!(CurrencyCode::from_str("FIM").unwrap(), CurrencyCode::Fim);
    assert_eq!(CurrencyCode::from_str("FJD").unwrap(), CurrencyCode::Fjd);
    assert_eq!(CurrencyCode::from_str("FKP").unwrap(), CurrencyCode::Fkp);
    assert_eq!(CurrencyCode::from_str("FRF").unwrap(), CurrencyCode::Frf);
    assert_eq!(CurrencyCode::from_str("GBP").unwrap(), CurrencyCode::Gbp);
    assert_eq!(CurrencyCode::from_str("GEK").unwrap(), CurrencyCode::Gek);
    assert_eq!(CurrencyCode::from_str("GEL").unwrap(), CurrencyCode::Gel);
    assert_eq!(CurrencyCode::from_str("GHC").unwrap(), CurrencyCode::Ghc);
    assert_eq!(CurrencyCode::from_str("GHP").unwrap(), CurrencyCode::Ghp);
    assert_eq!(CurrencyCode::from_str("GHS").unwrap(), CurrencyCode::Ghs);
    assert_eq!(CurrencyCode::from_str("GIP").unwrap(), CurrencyCode::Gip);
    assert_eq!(CurrencyCode::from_str("GMD").unwrap(), CurrencyCode::Gmd);
    assert_eq!(CurrencyCode::from_str("GNE").unwrap(), CurrencyCode::Gne);
    assert_eq!(CurrencyCode::from_str("GNF").unwrap(), CurrencyCode::Gnf);
    assert_eq!(CurrencyCode::from_str("GNS").unwrap(), CurrencyCode::Gns);
    assert_eq!(CurrencyCode::from_str("GQE").unwrap(), CurrencyCode::Gqe);
    assert_eq!(CurrencyCode::from_str("GRD").unwrap(), CurrencyCode::Grd);
    assert_eq!(CurrencyCode::from_str("GTQ").unwrap(), CurrencyCode::Gtq);
    assert_eq!(CurrencyCode::from_str("GWE").unwrap(), CurrencyCode::Gwe);
    assert_eq!(CurrencyCode::from_str("GWP").unwrap(), CurrencyCode::Gwp);
    assert_eq!(CurrencyCode::from_str("GYD").unwrap(), CurrencyCode::Gyd);
    assert_eq!(CurrencyCode::from_str("HKD").unwrap(), CurrencyCode::Hkd);
    assert_eq!(CurrencyCode::from_str("HNL").unwrap(), CurrencyCode::Hnl);
    assert_eq!(CurrencyCode::from_str("HRD").unwrap(), CurrencyCode::Hrd);
    assert_eq!(CurrencyCode::from_str("HRK").unwrap(), CurrencyCode::Hrk);
    assert_eq!(CurrencyCode::from_str("HTG").unwrap(), CurrencyCode::Htg);
    assert_eq!(CurrencyCode::from_str("HUF").unwrap(), CurrencyCode::Huf);
    assert_eq!(CurrencyCode::from_str("IDR").unwrap(), CurrencyCode::Idr);
    assert_eq!(CurrencyCode::from_str("IEP").unwrap(), CurrencyCode::Iep);
    assert_eq!(CurrencyCode::from_str("ILP").unwrap(), CurrencyCode::Ilp);
    assert_eq!(CurrencyCode::from_str("ILR").unwrap(), CurrencyCode::Ilr);
    assert_eq!(CurrencyCode::from_str("ILS").unwrap(), CurrencyCode::Ils);
    assert_eq!(CurrencyCode::from_str("INR").unwrap(), CurrencyCode::Inr);
    assert_eq!(CurrencyCode::from_str("IQD").unwrap(), CurrencyCode::Iqd);
    assert_eq!(CurrencyCode::from_str("IRR").unwrap(), CurrencyCode::Irr);
    assert_eq!(CurrencyCode::from_str("ISJ").unwrap(), CurrencyCode::Isj);
    assert_eq!(CurrencyCode::from_str("ISK").unwrap(), CurrencyCode::Isk);
    assert_eq!(CurrencyCode::from_str("ITL").unwrap(), CurrencyCode::Itl);
    assert_eq!(CurrencyCode::from_str("JMD").unwrap(), CurrencyCode::Jmd);
    assert_eq!(CurrencyCode::from_str("JOD").unwrap(), CurrencyCode::Jod);
    assert_eq!(CurrencyCode::from_str("JPY").unwrap(), CurrencyCode::Jpy);
    assert_eq!(CurrencyCode::from_str("KES").unwrap(), CurrencyCode::Kes);
    assert_eq!(CurrencyCode::from_str("KGS").unwrap(), CurrencyCode::Kgs);
    assert_eq!(CurrencyCode::from_str("KHR").unwrap(), CurrencyCode::Khr);
    assert_eq!(CurrencyCode::from_str("KMF").unwrap(), CurrencyCode::Kmf);
    assert_eq!(CurrencyCode::from_str("KPW").unwrap(), CurrencyCode::Kpw);
    assert_eq!(CurrencyCode::from_str("KRW").unwrap(), CurrencyCode::Krw);
    assert_eq!(CurrencyCode::from_str("KWD").unwrap(), CurrencyCode::Kwd);
    assert_eq!(CurrencyCode::from_str("KYD").unwrap(), CurrencyCode::Kyd);
    assert_eq!(CurrencyCode::from_str("KZT").unwrap(), CurrencyCode::Kzt);
    assert_eq!(CurrencyCode::from_str("LAJ").unwrap(), CurrencyCode::Laj);
    assert_eq!(CurrencyCode::from_str("LAK").unwrap(), CurrencyCode::Lak);
    assert_eq!(CurrencyCode::from_str("LBP").unwrap(), CurrencyCode::Lbp);
    assert_eq!(CurrencyCode::from_str("LKR").unwrap(), CurrencyCode::Lkr);
    assert_eq!(CurrencyCode::from_str("LRD").unwrap(), CurrencyCode::Lrd);
    assert_eq!(CurrencyCode::from_str("LSL").unwrap(), CurrencyCode::Lsl);
    assert_eq!(CurrencyCode::from_str("LSM").unwrap(), CurrencyCode::Lsm);
    assert_eq!(CurrencyCode::from_str("LTL").unwrap(), CurrencyCode::Ltl);
    assert_eq!(CurrencyCode::from_str("LTT").unwrap(), CurrencyCode::Ltt);
    assert_eq!(CurrencyCode::from_str("LUC").unwrap(), CurrencyCode::Luc);
    assert_eq!(CurrencyCode::from_str("LUF").unwrap(), CurrencyCode::Luf);
    assert_eq!(CurrencyCode::from_str("LUL").unwrap(), CurrencyCode::Lul);
    assert_eq!(CurrencyCode::from_str("LVL").unwrap(), CurrencyCode::Lvl);
    assert_eq!(CurrencyCode::from_str("LVR").unwrap(), CurrencyCode::Lvr);
    assert_eq!(CurrencyCode::from_str("LYD").unwrap(), CurrencyCode::Lyd);
    assert_eq!(CurrencyCode::from_str("MAD").unwrap(), CurrencyCode::Mad);
    assert_eq!(CurrencyCode::from_str("MDL").unwrap(), CurrencyCode::Mdl);
    assert_eq!(CurrencyCode::from_str("MGA").unwrap(), CurrencyCode::Mga);
    assert_eq!(CurrencyCode::from_str("MGF").unwrap(), CurrencyCode::Mgf);
    assert_eq!(CurrencyCode::from_str("MKD").unwrap(), CurrencyCode::Mkd);
    assert_eq!(CurrencyCode::from_str("MLF").unwrap(), CurrencyCode::Mlf);
    assert_eq!(CurrencyCode::from_str("MMK").unwrap(), CurrencyCode::Mmk);
    assert_eq!(CurrencyCode::from_str("MNT").unwrap(), CurrencyCode::Mnt);
    assert_eq!(CurrencyCode::from_str("MOP").unwrap(), CurrencyCode::Mop);
    assert_eq!(CurrencyCode::from_str("MRO").unwrap(), CurrencyCode::Mro);
    assert_eq!(CurrencyCode::from_str("MRU").unwrap(), CurrencyCode::Mru);
    assert_eq!(CurrencyCode::from_str("MTL").unwrap(), CurrencyCode::Mtl);
    assert_eq!(CurrencyCode::from_str("MTP").unwrap(), CurrencyCode::Mtp);
    assert_eq!(CurrencyCode::from_str("MUR").unwrap(), CurrencyCode::Mur);
    assert_eq!(CurrencyCode::from_str("MVQ").unwrap(), CurrencyCode::Mvq);
    assert_eq!(CurrencyCode::from_str("MVR").unwrap(), CurrencyCode::Mvr);
    assert_eq!(CurrencyCode::from_str("MWK").unwrap(), CurrencyCode::Mwk);
    assert_eq!(CurrencyCode::from_str("MXN").unwrap(), CurrencyCode::Mxn);
    assert_eq!(CurrencyCode::from_str("MXP").unwrap(), CurrencyCode::Mxp);
    assert_eq!(CurrencyCode::from_str("MXV").unwrap(), CurrencyCode::Mxv);
    assert_eq!(CurrencyCode::from_str("MYR").unwrap(), CurrencyCode::Myr);
    assert_eq!(CurrencyCode::from_str("MZE").unwrap(), CurrencyCode::Mze);
    assert_eq!(CurrencyCode::from_str("MZM").unwrap(), CurrencyCode::Mzm);
    assert_eq!(CurrencyCode::from_str("MZN").unwrap(), CurrencyCode::Mzn);
    assert_eq!(CurrencyCode::from_str("NAD").unwrap(), CurrencyCode::Nad);
    assert_eq!(CurrencyCode::from_str("NGN").unwrap(), CurrencyCode::Ngn);
    assert_eq!(CurrencyCode::from_str("NIC").unwrap(), CurrencyCode::Nic);
    assert_eq!(CurrencyCode::from_str("NIO").unwrap(), CurrencyCode::Nio);
    assert_eq!(CurrencyCode::from_str("NLG").unwrap(), CurrencyCode::Nlg);
    assert_eq!(CurrencyCode::from_str("NOK").unwrap(), CurrencyCode::Nok);
    assert_eq!(CurrencyCode::from_str("NPR").unwrap(), CurrencyCode::Npr);
    assert_eq!(CurrencyCode::from_str("NZD").unwrap(), CurrencyCode::Nzd);
    assert_eq!(CurrencyCode::from_str("OMR").unwrap(), CurrencyCode::Omr);
    assert_eq!(CurrencyCode::from_str("PAB").unwrap(), CurrencyCode::Pab);
    assert_eq!(CurrencyCode::from_str("PEH").unwrap(), CurrencyCode::Peh);
    assert_eq!(CurrencyCode::from_str("PEI").unwrap(), CurrencyCode::Pei);
    assert_eq!(CurrencyCode::from_str("PEN").unwrap(), CurrencyCode::Pen);
    assert_eq!(CurrencyCode::from_str("PES").unwrap(), CurrencyCode::Pes);
    assert_eq!(CurrencyCode::from_str("PGK").unwrap(), CurrencyCode::Pgk);
    assert_eq!(CurrencyCode::from_str("PHP").unwrap(), CurrencyCode::Php);
    assert_eq!(CurrencyCode::from_str("PKR").unwrap(), CurrencyCode::Pkr);
    assert_eq!(CurrencyCode::from_str("PLN").unwrap(), CurrencyCode::Pln);
    assert_eq!(CurrencyCode::from_str("PLZ").unwrap(), CurrencyCode::Plz);
    assert_eq!(CurrencyCode::from_str("PTE").unwrap(), CurrencyCode::Pte);
    assert_eq!(CurrencyCode::from_str("PYG").unwrap(), CurrencyCode::Pyg);
    assert_eq!(CurrencyCode::from_str("QAR").unwrap(), CurrencyCode::Qar);
    assert_eq!(CurrencyCode::from_str("RHD").unwrap(), CurrencyCode::Rhd);
    assert_eq!(CurrencyCode::from_str("ROK").unwrap(), CurrencyCode::Rok);
    assert_eq!(CurrencyCode::from_str("ROL").unwrap(), CurrencyCode::Rol);
    assert_eq!(CurrencyCode::from_str("RON").unwrap(), CurrencyCode::Ron);
    assert_eq!(CurrencyCode::from_str("RSD").unwrap(), CurrencyCode::Rsd);
    assert_eq!(CurrencyCode::from_str("RUB").unwrap(), CurrencyCode::Rub);
    assert_eq!(CurrencyCode::from_str("RUR").unwrap(), CurrencyCode::Rur);
    assert_eq!(CurrencyCode::from_str("RWF").unwrap(), CurrencyCode::Rwf);
    assert_eq!(CurrencyCode::from_str("SAR").unwrap(), CurrencyCode::Sar);
    assert_eq!(CurrencyCode::from_str("SBD").unwrap(), CurrencyCode::Sbd);
    assert_eq!(CurrencyCode::from_str("SCR").unwrap(), CurrencyCode::Scr);
    assert_eq!(CurrencyCode::from_str("SDD").unwrap(), CurrencyCode::Sdd);
    assert_eq!(CurrencyCode::from_str("SDG").unwrap(), CurrencyCode::Sdg);
    assert_eq!(CurrencyCode::from_str("SDP").unwrap(), CurrencyCode::Sdp);
    assert_eq!(CurrencyCode::from_str("SEK").unwrap(), CurrencyCode::Sek);
    assert_eq!(CurrencyCode::from_str("SGD").unwrap(), CurrencyCode::Sgd);
    assert_eq!(CurrencyCode::from_str("SHP").unwrap(), CurrencyCode::Shp);
    assert_eq!(CurrencyCode::from_str("SIT").unwrap(), CurrencyCode::Sit);
    assert_eq!(CurrencyCode::from_str("SKK").unwrap(), CurrencyCode::Skk);
    assert_eq!(CurrencyCode::from_str("SLL").unwrap(), CurrencyCode::Sll);
    assert_eq!(CurrencyCode::from_str("SOS").unwrap(), CurrencyCode::Sos);
    assert_eq!(CurrencyCode::from_str("SRD").unwrap(), CurrencyCode::Srd);
    assert_eq!(CurrencyCode::from_str("SRG").unwrap(), CurrencyCode::Srg);
    assert_eq!(CurrencyCode::from_str("SSP").unwrap(), CurrencyCode::Ssp);
    assert_eq!(CurrencyCode::from_str("STD").unwrap(), CurrencyCode::Std);
    assert_eq!(CurrencyCode::from_str("STN").unwrap(), CurrencyCode::Stn);
    assert_eq!(CurrencyCode::from_str("SUR").unwrap(), CurrencyCode::Sur);
    assert_eq!(CurrencyCode::from_str("SVC").unwrap(), CurrencyCode::Svc);
    assert_eq!(CurrencyCode::from_str("SYP").unwrap(), CurrencyCode::Syp);
    assert_eq!(CurrencyCode::from_str("SZL").unwrap(), CurrencyCode::Szl);
    assert_eq!(CurrencyCode::from_str("THB").unwrap(), CurrencyCode::Thb);
    assert_eq!(CurrencyCode::from_str("TJR").unwrap(), CurrencyCode::Tjr);
    assert_eq!(CurrencyCode::from_str("TJS").unwrap(), CurrencyCode::Tjs);
    assert_eq!(CurrencyCode::from_str("TMM").unwrap(), CurrencyCode::Tmm);
    assert_eq!(CurrencyCode::from_str("TMT").unwrap(), CurrencyCode::Tmt);
    assert_eq!(CurrencyCode::from_str("TND").unwrap(), CurrencyCode::Tnd);
    assert_eq!(CurrencyCode::from_str("TOP").unwrap(), CurrencyCode::Top);
    assert_eq!(CurrencyCode::from_str("TPE").unwrap(), CurrencyCode::Tpe);
    assert_eq!(CurrencyCode::from_str("TRL").unwrap(), CurrencyCode::Trl);
    assert_eq!(CurrencyCode::from_str("TRY").unwrap(), CurrencyCode::Try);
    assert_eq!(CurrencyCode::from_str("TTD").unwrap(), CurrencyCode::Ttd);
    assert_eq!(CurrencyCode::from_str("TWD").unwrap(), CurrencyCode::Twd);
    assert_eq!(CurrencyCode::from_str("TZS").unwrap(), CurrencyCode::Tzs);
    assert_eq!(CurrencyCode::from_str("UAH").unwrap(), CurrencyCode::Uah);
    assert_eq!(CurrencyCode::from_str("UAK").unwrap(), CurrencyCode::Uak);
    assert_eq!(CurrencyCode::from_str("UGS").unwrap(), CurrencyCode::Ugs);
    assert_eq!(CurrencyCode::from_str("UGW").unwrap(), CurrencyCode::Ugw);
    assert_eq!(CurrencyCode::from_str("UGX").unwrap(), CurrencyCode::Ugx);
    assert_eq!(CurrencyCode::from_str("USD").unwrap(), CurrencyCode::Usd);
    assert_eq!(CurrencyCode::from_str("USN").unwrap(), CurrencyCode::Usn);
    assert_eq!(CurrencyCode::from_str("USS").unwrap(), CurrencyCode::Uss);
    assert_eq!(CurrencyCode::from_str("UYI").unwrap(), CurrencyCode::Uyi);
    assert_eq!(CurrencyCode::from_str("UYN").unwrap(), CurrencyCode::Uyn);
    assert_eq!(CurrencyCode::from_str("UYP").unwrap(), CurrencyCode::Uyp);
    assert_eq!(CurrencyCode::from_str("UYU").unwrap(), CurrencyCode::Uyu);
    assert_eq!(CurrencyCode::from_str("UYW").unwrap(), CurrencyCode::Uyw);
    assert_eq!(CurrencyCode::from_str("UZS").unwrap(), CurrencyCode::Uzs);
    assert_eq!(CurrencyCode::from_str("VEB").unwrap(), CurrencyCode::Veb);
    assert_eq!(CurrencyCode::from_str("VEF").unwrap(), CurrencyCode::Vef);
    assert_eq!(CurrencyCode::from_str("VES").unwrap(), CurrencyCode::Ves);
    assert_eq!(CurrencyCode::from_str("VNC").unwrap(), CurrencyCode::Vnc);
    assert_eq!(CurrencyCode::from_str("VND").unwrap(), CurrencyCode::Vnd);
    assert_eq!(CurrencyCode::from_str("VUV").unwrap(), CurrencyCode::Vuv);
    assert_eq!(CurrencyCode::from_str("WST").unwrap(), CurrencyCode::Wst);
    assert_eq!(CurrencyCode::from_str("XAF").unwrap(), CurrencyCode::Xaf);
    assert_eq!(CurrencyCode::from_str("XAG").unwrap(), CurrencyCode::Xag);
    assert_eq!(CurrencyCode::from_str("XAU").unwrap(), CurrencyCode::Xau);
    assert_eq!(CurrencyCode::from_str("XBA").unwrap(), CurrencyCode::Xba);
    assert_eq!(CurrencyCode::from_str("XBB").unwrap(), CurrencyCode::Xbb);
    assert_eq!(CurrencyCode::from_str("XBC").unwrap(), CurrencyCode::Xbc);
    assert_eq!(CurrencyCode::from_str("XBD").unwrap(), CurrencyCode::Xbd);
    assert_eq!(CurrencyCode::from_str("XCD").unwrap(), CurrencyCode::Xcd);
    assert_eq!(CurrencyCode::from_str("XDR").unwrap(), CurrencyCode::Xdr);
    assert_eq!(CurrencyCode::from_str("XEU").unwrap(), CurrencyCode::Xeu);
    assert_eq!(CurrencyCode::from_str("XFO").unwrap(), CurrencyCode::Xfo);
    assert_eq!(CurrencyCode::from_str("XFU").unwrap(), CurrencyCode::Xfu);
    assert_eq!(CurrencyCode::from_str("XOF").unwrap(), CurrencyCode::Xof);
    assert_eq!(CurrencyCode::from_str("XPD").unwrap(), CurrencyCode::Xpd);
    assert_eq!(CurrencyCode::from_str("XPF").unwrap(), CurrencyCode::Xpf);
    assert_eq!(CurrencyCode::from_str("XPT").unwrap(), CurrencyCode::Xpt);
    assert_eq!(CurrencyCode::from_str("XRE").unwrap(), CurrencyCode::Xre);
    assert_eq!(CurrencyCode::from_str("XSU").unwrap(), CurrencyCode::Xsu);
    assert_eq!(CurrencyCode::from_str("XTS").unwrap(), CurrencyCode::Xts);
    assert_eq!(CurrencyCode::from_str("XUA").unwrap(), CurrencyCode::Xua);
    assert_eq!(CurrencyCode::from_str("XXX").unwrap(), CurrencyCode::Xxx);
    assert_eq!(CurrencyCode::from_str("YDD").unwrap(), CurrencyCode::Ydd);
    assert_eq!(CurrencyCode::from_str("YER").unwrap(), CurrencyCode::Yer);
    assert_eq!(CurrencyCode::from_str("YUD").unwrap(), CurrencyCode::Yud);
    assert_eq!(CurrencyCode::from_str("YUM").unwrap(), CurrencyCode::Yum);
    assert_eq!(CurrencyCode::from_str("YUN").unwrap(), CurrencyCode::Yun);
    assert_eq!(CurrencyCode::from_str("ZAL").unwrap(), CurrencyCode::Zal);
    assert_eq!(CurrencyCode::from_str("ZAR").unwrap(), CurrencyCode::Zar);
    assert_eq!(CurrencyCode::from_str("ZMK").unwrap(), CurrencyCode::Zmk);
    assert_eq!(CurrencyCode::from_str("ZMW").unwrap(), CurrencyCode::Zmw);
    assert_eq!(CurrencyCode::from_str("ZRN").unwrap(), CurrencyCode::Zrn);
    assert_eq!(CurrencyCode::from_str("ZRZ").unwrap(), CurrencyCode::Zrz);
    assert_eq!(CurrencyCode::from_str("ZWC").unwrap(), CurrencyCode::Zwc);
    assert_eq!(CurrencyCode::from_str("ZWD").unwrap(), CurrencyCode::Zwd);
    assert_eq!(CurrencyCode::from_str("ZWL").unwrap(), CurrencyCode::Zwl);
    assert_eq!(CurrencyCode::from_str("ZWN").unwrap(), CurrencyCode::Zwn);
    assert_eq!(CurrencyCode::from_str("ZWR").unwrap(), CurrencyCode::Zwr);
}
