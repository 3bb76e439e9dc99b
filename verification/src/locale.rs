//! The static currency locale table: per-currency metadata (separators,
//! symbols, fraction length, symbol placement) keyed by upper-case
//! currency code. Consumed by the unformat path only.

use vstd::prelude::*;

use crate::chars::str_eq;

verus! {

/// The model of a locale record.
pub ghost struct LocaleView {
    pub name: Seq<char>,
    pub fraction_length: nat,
    pub thousands_seperator: Seq<char>,
    pub decimal_seperator: Seq<char>,
    pub space_seperator: Seq<char>,
    pub utf_symbol: Seq<char>,
    pub html_symbol: Seq<char>,
    pub common_symbol: Seq<char>,
    pub is_pre: bool,
}

/// Build a locale record model.
pub open spec fn locale_record(
    name: Seq<char>,
    fraction_length: nat,
    thousands_seperator: Seq<char>,
    decimal_seperator: Seq<char>,
    space_seperator: Seq<char>,
    utf_symbol: Seq<char>,
    html_symbol: Seq<char>,
    common_symbol: Seq<char>,
    is_pre: bool,
) -> LocaleView {
    LocaleView {
        name,
        fraction_length,
        thousands_seperator,
        decimal_seperator,
        space_seperator,
        utf_symbol,
        html_symbol,
        common_symbol,
        is_pre,
    }
}

/// Per-currency formatting metadata.
pub struct Locale {
    // currency name
    pub name: String,
    // default decimal length
    pub fraction_length: usize,
    // thousands seperator
    pub thousands_seperator: String,
    // decimal seperator
    pub decimal_seperator: String,
    // space seperator
    pub space_seperator: String,
    // UTF symbol
    pub utf_symbol: String,
    // HTML symbol
    pub html_symbol: String,
    // Common symbol
    pub common_symbol: String,
    // symbol before or after currency
    pub is_pre: bool,
}

impl View for Locale {
    type V = LocaleView;

    open spec fn view(&self) -> LocaleView {
        LocaleView {
            name: self.name@,
            fraction_length: self.fraction_length as nat,
            thousands_seperator: self.thousands_seperator@,
            decimal_seperator: self.decimal_seperator@,
            space_seperator: self.space_seperator@,
            utf_symbol: self.utf_symbol@,
            html_symbol: self.html_symbol@,
            common_symbol: self.common_symbol@,
            is_pre: self.is_pre,
        }
    }
}

impl Locale {
    /// Build a locale record.
    pub fn new(
        name: &str,
        fraction_length: usize,
        thousands_seperator: &str,
        decimal_seperator: &str,
        space_seperator: &str,
        utf_symbol: &str,
        html_symbol: &str,
        common_symbol: &str,
        is_pre: bool,
    ) -> (r: Self)
        ensures
            r@ == locale_record(
                name@,
                fraction_length as nat,
                thousands_seperator@,
                decimal_seperator@,
                space_seperator@,
                utf_symbol@,
                html_symbol@,
                common_symbol@,
                is_pre,
            ),
    {
        Locale {
            name: String::from_str(name),
            fraction_length,
            thousands_seperator: String::from_str(thousands_seperator),
            decimal_seperator: String::from_str(decimal_seperator),
            space_seperator: String::from_str(space_seperator),
            utf_symbol: String::from_str(utf_symbol),
            html_symbol: String::from_str(html_symbol),
            common_symbol: String::from_str(common_symbol),
            is_pre,
        }
    }
}

pub open spec fn spec_locale_map_a(code: Seq<char>) -> Option<LocaleView> {
    if code == "AED"@ {
        Some(locale_record("UAE Dirham"@, 2, ","@, "."@, " "@, ""@, ""@, "Dhs."@, true))
    } else if code == "AFA"@ {
        Some(locale_record("Afghani"@, 0, ""@, ""@, "060B"@, "&#x060B;"@, ""@, "؋"@, true))
    } else if code == "ALL"@ {
        Some(locale_record("Lek"@, 2, ""@, ""@, ""@, ""@, ""@, "Lek"@, true))
    } else if code == "AMD"@ {
        Some(locale_record("Armenian Dram"@, 2, ","@, "."@, ""@, ""@, ""@, "֏"@, false))
    } else if code == "ANG"@ {
        Some(locale_record("Antillian Guilder"@, 2, "."@, ","@, " "@, "0192"@, "&#x0192;"@, "ƒ"@, true))
    } else if code == "AOA"@ {
        Some(locale_record("New Kwanza"@, 0, ""@, ""@, ""@, ""@, ""@, "Kz"@, true))
    } else if code == "ARS"@ {
        Some(locale_record("Argentine Peso"@, 2, "."@, ","@, ""@, "20B1"@, "&#x20B1;"@, "$"@, true))
    } else if code == "ATS"@ {
        Some(locale_record("Schilling"@, 2, "."@, ","@, " "@, ""@, ""@, "öS"@, true))
    } else if code == "AUD"@ {
        Some(locale_record("Australian Dollar"@, 2, " "@, "."@, ""@, "0024"@, "&#x0024;"@, "$"@, true))
    } else if code == "AWG"@ {
        Some(locale_record("Aruban Guilder"@, 2, ","@, "."@, " "@, "0192"@, "&#x0192;"@, "ƒ"@, true))
    } else if code == "AZN"@ {
        Some(locale_record("Azerbaijanian Manat"@, 2, ""@, ""@, ""@, ""@, ""@, "₼"@, true))
    } else if code == "BAM"@ {
        Some(locale_record("Convertible Marks"@, 2, ","@, "."@, ""@, ""@, ""@, "KM"@, false))
    } else if code == "BBD"@ {
        Some(locale_record("Barbados Dollar"@, 2, ""@, ""@, ""@, "0024"@, "&#x0024;"@, "Bds$"@, true))
    } else if code == "BDT"@ {
        Some(locale_record("Taka"@, 2, ","@, "."@, " "@, ""@, ""@, "Tk"@, true))
    } else if code == "BEF"@ {
        Some(locale_record("Belgian Franc"@, 0, "."@, ""@, " "@, "20A3"@, "&#x20A3;"@, "BEF"@, true))
    } else if code == "BGN"@ {
        Some(locale_record("Lev"@, 2, " "@, ","@, " "@, ""@, ""@, "лв"@, false))
    } else if code == "BHD"@ {
        Some(locale_record("Bahraini Dinar"@, 3, ","@, "."@, " "@, ""@, ""@, "د.ب"@, true))
    } else if code == "BIF"@ {
        Some(locale_record("Burundi Franc"@, 0, ""@, ""@, ""@, ""@, ""@, "FBu"@, true))
    } else if code == "BMD"@ {
        Some(locale_record("Bermudian Dollar"@, 2, ","@, "."@, ""@, "0024"@, "&#x0024;"@, "$"@, true))
    } else if code == "BND"@ {
        Some(locale_record("Brunei Dollar"@, 2, ","@, "."@, ""@, "0024"@, "&#x0024;"@, "$"@, true))
    } else if code == "BOB"@ {
        Some(locale_record("Bolivian Boliviano"@, 2, ","@, "."@, ""@, ""@, ""@, "$b"@, true))
    } else if code == "BRL"@ {
        Some(locale_record("Brazilian Real"@, 2, "."@, ","@, " "@, "0052 0024"@, "R$"@, "R$"@, true))
    } else if code == "BSD"@ {
        Some(locale_record("Bahamian Dollar"@, 2, ","@, "."@, ""@, "0024"@, "&#x0024;"@, "$"@, true))
    } else if code == "BTN"@ {
        Some(locale_record("Bhutan Ngultrum"@, 2, ""@, ""@, ""@, ""@, ""@, "BTN"@, true))
    } else if code == "BWP"@ {
        Some(locale_record("Pula"@, 2, ","@, "."@, ""@, ""@, ""@, "P"@, true))
    } else if code == "BYR"@ {
        Some(locale_record("Belarussian Ruble"@, 0, ""@, ""@, ""@, ""@, ""@, "p."@, true))
    } else if code == "BZD"@ {
        Some(locale_record("Belize Dollar"@, 2, ","@, "."@, ""@, "0024"@, "&#x0024;"@, "$"@, true))
    } else if code == "CAD"@ {
        Some(locale_record("Canadian Dollar"@, 2, ","@, "."@, ""@, "0024"@, "&#x0024;"@, "CA$"@, true))
    } else if code == "CDF"@ {
        Some(locale_record("Franc Congolais"@, 2, ""@, ""@, ""@, ""@, ""@, "FC"@, true))
    } else if code == "CHF"@ {
        Some(locale_record("Swiss Franc"@, 2, "'"@, "."@, " "@, ""@, ""@, "CHF"@, true))
    } else if code == "CLP"@ {
        Some(locale_record("Chilean Peso"@, 0, "."@, ""@, ""@, "20B1"@, "&#x20B1;"@, "$"@, true))
    } else {
        None
    }
}

pub open spec fn spec_locale_map_b(code: Seq<char>) -> Option<LocaleView> {
    if code == "CNY"@ {
        Some(locale_record("Yuan Renminbi"@, 2, ","@, "."@, ""@, "5713"@, "&#x5713;"@, "¥"@, true))
    } else if code == "COP"@ {
        Some(locale_record("Colombian Peso"@, 2, "."@, ","@, ""@, "20B1"@, "&#x20B1;"@, "$"@, true))
    } else if code == "CRC"@ {
        Some(locale_record("Costa Rican Colon"@, 2, "."@, ","@, " "@, "20A1"@, "&#x20A1;"@, "₡"@, true))
    } else if code == "CUP"@ {
        Some(locale_record("Cuban Peso"@, 2, ","@, "."@, " "@, "20B1"@, "&#x20B1;"@, "$"@, true))
    } else if code == "CVE"@ {
        Some(locale_record("Cape Verde Escudo"@, 0, ""@, ""@, ""@, ""@, ""@, "$"@, true))
    } else if code == "CYP"@ {
        Some(locale_record("Cyprus Pound"@, 2, "."@, ","@, ""@, "00A3"@, "&#x00A3;"@, "£"@, true))
    } else if code == "CZK"@ {
        Some(locale_record("Czech Koruna"@, 2, "."@, ","@, " "@, ""@, ""@, "Kč"@, false))
    } else if code == "DEM"@ {
        Some(locale_record("Deutsche Mark"@, 2, "."@, ","@, ""@, ""@, ""@, "DM"@, false))
    } else if code == "DJF"@ {
        Some(locale_record("Djibouti Franc"@, 0, ""@, ""@, ""@, ""@, ""@, "DJF"@, true))
    } else if code == "DKK"@ {
        Some(locale_record("Danish Krone"@, 2, "."@, ","@, ""@, ""@, ""@, "kr."@, true))
    } else if code == "DOP"@ {
        Some(locale_record("Dominican Peso"@, 2, ","@, "."@, " "@, "20B1"@, "&#x20B1;"@, "$"@, true))
    } else if code == "DZD"@ {
        Some(locale_record("Algerian Dinar"@, 2, ""@, ""@, ""@, ""@, ""@, "DA"@, true))
    } else if code == "ECS"@ {
        Some(locale_record("Sucre"@, 0, ""@, ""@, ""@, ""@, ""@, "S."@, true))
    } else if code == "EEK"@ {
        Some(locale_record("Kroon"@, 2, " "@, ","@, " "@, ""@, ""@, "kr"@, false))
    } else if code == "EGP"@ {
        Some(locale_record("Egyptian Pound"@, 2, ","@, "."@, " "@, "00A3"@, "&#x00A3;"@, "£"@, true))
    } else if code == "ERN"@ {
        Some(locale_record("Nakfa"@, 0, ""@, ""@, ""@, ""@, ""@, "NKf"@, true))
    } else if code == "ESP"@ {
        Some(locale_record("Spanish Peseta"@, 0, "."@, ""@, " "@, "20A7"@, "&#x20A7;"@, "Ptas"@, false))
    } else if code == "ETB"@ {
        Some(locale_record("Ethiopian Birr"@, 0, ""@, ""@, ""@, ""@, ""@, "BR"@, true))
    } else if code == "EUR"@ {
        Some(locale_record("Euro"@, 2, "."@, ","@, ""@, "20AC"@, "&#x20AC;"@, "€"@, true))
    } else if code == "FIM"@ {
        Some(locale_record("Markka"@, 2, " "@, ","@, " "@, ""@, ""@, "mk"@, false))
    } else if code == "FJD"@ {
        Some(locale_record("Fiji Dollar"@, 0, ""@, ""@, ""@, "0024"@, "&#x0024;"@, "FJ$"@, true))
    } else if code == "FKP"@ {
        Some(locale_record("Pound"@, 0, ""@, ""@, ""@, "00A3"@, "&#x00A3;"@, "£"@, true))
    } else if code == "FRF"@ {
        Some(locale_record("French Franc"@, 2, " "@, ","@, " "@, "20A3"@, "&#x20A3;"@, "Fr"@, false))
    } else if code == "GBP"@ {
        Some(locale_record("Pound Sterling"@, 2, ","@, "."@, ""@, "00A3"@, "&#x00A3;"@, "£"@, true))
    } else if code == "GEL"@ {
        Some(locale_record("Lari"@, 0, ""@, ""@, ""@, ""@, ""@, "GEL"@, true))
    } else if code == "GHS"@ {
        Some(locale_record("Cedi"@, 2, ","@, "."@, ""@, "20B5"@, "&#x20B5;"@, "₵"@, true))
    } else if code == "GIP"@ {
        Some(locale_record("Gibraltar Pound"@, 2, ","@, "."@, ""@, "00A3"@, "&#x00A3;"@, "£"@, true))
    } else if code == "GMD"@ {
        Some(locale_record("Dalasi"@, 0, ""@, ""@, ""@, ""@, ""@, "GMD"@, true))
    } else if code == "GNF"@ {
        Some(locale_record("Guinea Franc"@, 0, ""@, ""@, ""@, ""@, ""@, "FG"@, true))
    } else if code == "GRD"@ {
        Some(locale_record("Drachma"@, 2, "."@, ","@, " "@, "20AF"@, "&#x20AF;"@, "GRD"@, false))
    } else if code == "GTQ"@ {
        Some(locale_record("Quetzal"@, 2, ","@, "."@, ""@, ""@, ""@, "Q."@, true))
    } else {
        None
    }
}

pub open spec fn spec_locale_map_c(code: Seq<char>) -> Option<LocaleView> {
    if code == "GWP"@ {
        Some(locale_record("Guinea-Bissau Peso"@, 0, ""@, ""@, ""@, ""@, ""@, "GWP"@, true))
    } else if code == "GYD"@ {
        Some(locale_record("Guyana Dollar"@, 0, ""@, ""@, ""@, "0024"@, "&#x0024;"@, "$"@, true))
    } else if code == "HKD"@ {
        Some(locale_record("Hong Kong Dollar"@, 2, ","@, "."@, ""@, "0024"@, "&#x0024;"@, "HK$"@, true))
    } else if code == "HNL"@ {
        Some(locale_record("Lempira"@, 2, ","@, "."@, " "@, ""@, ""@, "L"@, true))
    } else if code == "HRK"@ {
        Some(locale_record("Kuna"@, 2, "."@, ","@, " "@, ""@, ""@, "kn"@, false))
    } else if code == "HTG"@ {
        Some(locale_record("Gourde"@, 0, ""@, ""@, ""@, ""@, ""@, "G"@, true))
    } else if code == "HUF"@ {
        Some(locale_record("Forint"@, 0, "."@, ""@, " "@, ""@, ""@, "Ft"@, false))
    } else if code == "IDR"@ {
        Some(locale_record("Rupiah"@, 0, "."@, ","@, ""@, ""@, ""@, "Rp"@, true))
    } else if code == "IEP"@ {
        Some(locale_record("Irish Pound"@, 2, ","@, "."@, ""@, "00A3"@, "&#x00A3;"@, "£"@, true))
    } else if code == "ILS"@ {
        Some(locale_record("New Israeli Sheqel"@, 2, ","@, "."@, " "@, "20AA"@, "&#x20AA;"@, "₪"@, false))
    } else if code == "INR"@ {
        Some(locale_record("Indian Rupee"@, 2, ","@, "."@, ""@, "20A8"@, "&#x20A8;"@, "₹"@, true))
    } else if code == "IQD"@ {
        Some(locale_record("Iraqi Dinar"@, 3, ""@, ""@, ""@, ""@, ""@, "د.ع"@, true))
    } else if code == "IRR"@ {
        Some(locale_record("Iranian Rial"@, 2, ","@, "."@, " "@, "FDFC"@, "&#xFDFC;"@, "﷼"@, true))
    } else if code == "ISK"@ {
        Some(locale_record("Iceland Krona"@, 2, "."@, ","@, " "@, ""@, ""@, "kr"@, false))
    } else if code == "ITL"@ {
        Some(locale_record("Italian Lira"@, 0, "."@, ""@, " "@, "20A4"@, "&#x20A4;"@, "L."@, true))
    } else if code == "JMD"@ {
        Some(locale_record("Jamaican Dollar"@, 2, ","@, "."@, ""@, "0024"@, "&#x0024;"@, "$"@, true))
    } else if code == "JOD"@ {
        Some(locale_record("Jordanian Dinar"@, 3, ","@, "."@, " "@, ""@, ""@, "JD"@, true))
    } else if code == "JPY"@ {
        Some(locale_record("Yen"@, 0, ","@, ""@, ""@, "00A5"@, "&#x00A5;"@, "¥"@, true))
    } else if code == "KES"@ {
        Some(locale_record("Kenyan Shilling"@, 2, ","@, "."@, ""@, ""@, ""@, "Ksh"@, true))
    } else if code == "KGS"@ {
        Some(locale_record("Som"@, 0, ""@, ""@, ""@, ""@, ""@, "лв"@, true))
    } else if code == "KHR"@ {
        Some(locale_record("Riel"@, 2, ""@, ""@, ""@, "17DB"@, "&#x17DB;"@, "៛"@, true))
    } else if code == "KMF"@ {
        Some(locale_record("Comoro Franc"@, 0, ""@, ""@, ""@, ""@, ""@, "KMF"@, true))
    } else if code == "KPW"@ {
        Some(locale_record("North Korean Won"@, 0, ""@, ""@, ""@, "20A9"@, "&#x20A9;"@, "₩"@, true))
    } else if code == "KRW"@ {
        Some(locale_record("Won"@, 0, ","@, ""@, ""@, "20A9"@, "&#x20A9;"@, "₩"@, true))
    } else if code == "KWD"@ {
        Some(locale_record("Kuwaiti Dinar"@, 3, ","@, "."@, " "@, ""@, ""@, "ك"@, true))
    } else if code == "KYD"@ {
        Some(locale_record("Cayman Islands Dollar"@, 2, ","@, "."@, ""@, "0024"@, "&#x0024;"@, "$"@, true))
    } else if code == "KZT"@ {
        Some(locale_record("Tenge"@, 0, ""@, ""@, ""@, ""@, ""@, "₸"@, true))
    } else if code == "LAK"@ {
        Some(locale_record("Kip"@, 0, ""@, ""@, ""@, "20AD"@, "&#x20AD;"@, "₭"@, true))
    } else if code == "LBP"@ {
        Some(locale_record("Lebanese Pound"@, 0, " "@, ""@, ""@, "00A3"@, "&#x00A3;"@, "ل.ل"@, false))
    } else if code == "LKR"@ {
        Some(locale_record("Sri Lanka Rupee"@, 0, ""@, ""@, ""@, "0BF9"@, "&#x0BF9;"@, "₨"@, true))
    } else if code == "LRD"@ {
        Some(locale_record("Liberian Dollar"@, 0, ""@, ""@, ""@, "0024"@, "&#x0024;"@, "$"@, true))
    } else {
        None
    }
}

pub open spec fn spec_locale_map_d(code: Seq<char>) -> Option<LocaleView> {
    if code == "LSL"@ {
        Some(locale_record("Lesotho Maloti"@, 0, ""@, ""@, ""@, ""@, ""@, "LSL"@, true))
    } else if code == "LTL"@ {
        Some(locale_record("Lithuanian Litas"@, 2, " "@, ","@, " "@, ""@, ""@, "Lt"@, false))
    } else if code == "LUF"@ {
        Some(locale_record("Luxembourg Franc"@, 0, "'"@, ""@, " "@, "20A3"@, "&#x20A3;"@, "F"@, false))
    } else if code == "LVL"@ {
        Some(locale_record("Latvian Lats"@, 2, ","@, "."@, " "@, ""@, ""@, "Ls"@, true))
    } else if code == "LYD"@ {
        Some(locale_record("Libyan Dinar"@, 0, ""@, ""@, ""@, ""@, ""@, "LD"@, true))
    } else if code == "MAD"@ {
        Some(locale_record("Moroccan Dirham"@, 0, ""@, ""@, ""@, ""@, ""@, "MAD"@, true))
    } else if code == "MDL"@ {
        Some(locale_record("Moldovan Leu"@, 0, ""@, ""@, ""@, ""@, ""@, "MDL"@, true))
    } else if code == "MGF"@ {
        Some(locale_record("Malagasy Franc"@, 0, ""@, ""@, ""@, ""@, ""@, "MF"@, true))
    } else if code == "MKD"@ {
        Some(locale_record("Denar"@, 2, ","@, "."@, " "@, ""@, ""@, "ден"@, false))
    } else if code == "MMK"@ {
        Some(locale_record("Kyat"@, 0, ""@, ""@, ""@, ""@, ""@, "K"@, true))
    } else if code == "MNT"@ {
        Some(locale_record("Tugrik"@, 0, ""@, ""@, ""@, "20AE"@, "&#x20AE;"@, "₮"@, true))
    } else if code == "MOP"@ {
        Some(locale_record("Pataca"@, 0, ""@, ""@, ""@, ""@, ""@, "MOP$"@, true))
    } else if code == "MRO"@ {
        Some(locale_record("Ouguiya"@, 0, ""@, ""@, ""@, ""@, ""@, "MRO"@, true))
    } else if code == "MTL"@ {
        Some(locale_record("Maltese Lira"@, 2, ","@, "."@, ""@, "20A4"@, "&#x20A4;"@, "Lm"@, true))
    } else if code == "MUR"@ {
        Some(locale_record("Mauritius Rupee"@, 0, ","@, ""@, ""@, "20A8"@, "&#x20A8;"@, "Rs"@, true))
    } else if code == "MVR"@ {
        Some(locale_record("Rufiyaa"@, 0, ""@, ""@, ""@, ""@, ""@, "MVR"@, true))
    } else if code == "MWK"@ {
        Some(locale_record("Kwacha"@, 2, ","@, "."@, ""@, ""@, ""@, "MK"@, true))
    } else if code == "MXN"@ {
        Some(locale_record("Mexican Peso"@, 2, ","@, "."@, " "@, "0024"@, "&#x0024;"@, "$"@, true))
    } else if code == "MYR"@ {
        Some(locale_record("Malaysian Ringgit"@, 2, ","@, "."@, ""@, ""@, ""@, "RM"@, true))
    } else if code == "MZN"@ {
        Some(locale_record("Metical"@, 2, "."@, ","@, " "@, ""@, ""@, "Mt"@, false))
    } else if code == "NAD"@ {
        Some(locale_record("Namibian Dollar"@, 0, ""@, ""@, ""@, "0024"@, "&#x0024;"@, "$"@, true))
    } else if code == "NGN"@ {
        Some(locale_record("Naira"@, 2, ","@, "."@, "."@, "20A6"@, "&#x20A6;"@, "₦"@, true))
    } else if code == "NIO"@ {
        Some(locale_record("Cordoba Oro"@, 0, ""@, ""@, ""@, ""@, ""@, "C$"@, true))
    } else if code == "NLG"@ {
        Some(locale_record("Netherlands Guilder"@, 2, "."@, ","@, " "@, "0192"@, "&#x0192;"@, "ƒ"@, true))
    } else if code == "NOK"@ {
        Some(locale_record("Norwegian Krone"@, 2, "."@, ","@, " "@, "kr"@, "kr"@, "kr"@, true))
    } else if code == "NPR"@ {
        Some(locale_record("Nepalese Rupee"@, 2, ","@, "."@, " "@, "20A8"@, "&#x20A8;"@, "Rs."@, true))
    } else if code == "NZD"@ {
        Some(locale_record("New Zealand Dollar"@, 2, ","@, "."@, ""@, "0024"@, "&#x0024;"@, "$"@, true))
    } else if code == "OMR"@ {
        Some(locale_record("Rial Omani"@, 3, ","@, "."@, " "@, "FDFC"@, "&#xFDFC;"@, "RO"@, true))
    } else if code == "PAB"@ {
        Some(locale_record("Balboa"@, 0, ""@, ""@, ""@, ""@, ""@, "B/."@, true))
    } else if code == "PEN"@ {
        Some(locale_record("Nuevo Sol"@, 2, ","@, "."@, " "@, "S/."@, "S/."@, "S/."@, true))
    } else if code == "PGK"@ {
        Some(locale_record("Kina"@, 0, ""@, ""@, ""@, ""@, ""@, "K"@, true))
    } else {
        None
    }
}

pub open spec fn spec_locale_map_e(code: Seq<char>) -> Option<LocaleView> {
    if code == "PHP"@ {
        Some(locale_record("Philippine Peso"@, 2, ","@, "."@, ""@, "20B1"@, "&#x20B1;"@, "₱"@, true))
    } else if code == "PKR"@ {
        Some(locale_record("Pakistan Rupee"@, 2, ","@, "."@, ""@, "20A8"@, "&#x20A8;"@, "Rs"@, true))
    } else if code == "PLN"@ {
        Some(locale_record("Zloty"@, 2, " "@, ","@, " "@, ""@, ""@, "zł"@, false))
    } else if code == "PTE"@ {
        Some(locale_record("Portuguese Escudo"@, 0, "."@, ""@, " "@, ""@, ""@, "$"@, false))
    } else if code == "PYG"@ {
        Some(locale_record("Guarani"@, 0, ""@, ""@, ""@, "20B2"@, "&#x20B2;"@, "Gs"@, true))
    } else if code == "QAR"@ {
        Some(locale_record("Qatari Rial"@, 0, ""@, ""@, ""@, "FDFC"@, "&#xFDFC;"@, "﷼"@, true))
    } else if code == "RON"@ {
        Some(locale_record("Leu"@, 2, "."@, ","@, " "@, ""@, ""@, "lei"@, false))
    } else if code == "RSD"@ {
        Some(locale_record("Serbian Dinar"@, 2, ""@, ""@, ""@, ""@, ""@, "РСД"@, false))
    } else if code == "RUB"@ {
        Some(locale_record("Russian Ruble"@, 2, "."@, ","@, ""@, "0440 0443 0431"@, "&#x0440;&#x0443;&#x0431;"@, "₽"@, true))
    } else if code == "RWF"@ {
        Some(locale_record("Rwanda Franc"@, 0, ""@, ""@, ""@, ""@, ""@, "RWF"@, true))
    } else if code == "SAC"@ {
        Some(locale_record("S. African Rand Commerc."@, 0, ""@, ""@, ""@, ""@, ""@, "SAC"@, true))
    } else if code == "SAR"@ {
        Some(locale_record("Saudi Riyal"@, 2, ","@, "."@, " "@, "FDFC"@, "&#xFDFC;"@, "﷼"@, true))
    } else if code == "SBD"@ {
        Some(locale_record("Solomon Islands Dollar"@, 0, ""@, ""@, ""@, "0024"@, "&#x0024;"@, "$"@, true))
    } else if code == "SCR"@ {
        Some(locale_record("Seychelles Rupee"@, 0, ""@, ""@, ""@, "20A8"@, "&#x20A8;"@, "₨"@, true))
    } else if code == "SDG"@ {
        Some(locale_record("Sudanese Dinar"@, 0, ""@, ""@, ""@, ""@, ""@, "LSd"@, true))
    } else if code == "SDP"@ {
        Some(locale_record("Sudanese Pound"@, 0, ""@, ""@, ""@, ""@, ""@, "SDP"@, true))
    } else if code == "SEK"@ {
        Some(locale_record("Swedish Krona"@, 2, " "@, ","@, " "@, ""@, ""@, "kr"@, false))
    } else if code == "SGD"@ {
        Some(locale_record("Singapore Dollar"@, 2, ","@, "."@, ""@, "0024"@, "&#x0024;"@, "$"@, true))
    } else if code == "SHP"@ {
        Some(locale_record("St Helena Pound"@, 0, ""@, ""@, ""@, "00A3"@, "&#x00A3;"@, "£"@, true))
    } else if code == "SIT"@ {
        Some(locale_record("Tolar"@, 2, "."@, ","@, " "@, ""@, ""@, "SIT"@, false))
    } else if code == "SKK"@ {
        Some(locale_record("Slovak Koruna"@, 2, " "@, ","@, " "@, ""@, ""@, "Sk"@, false))
    } else if code == "SLL"@ {
        Some(locale_record("Leone"@, 0, ""@, ""@, ""@, ""@, ""@, "Le"@, true))
    } else if code == "SOS"@ {
        Some(locale_record("Somali Shilling"@, 0, ""@, ""@, ""@, ""@, ""@, "S"@, true))
    } else if code == "SRG"@ {
        Some(locale_record("Surinam Guilder"@, 0, ""@, ""@, ""@, ""@, ""@, "SRG"@, true))
    } else if code == "STD"@ {
        Some(locale_record("Dobra"@, 0, ""@, ""@, ""@, ""@, ""@, "DB"@, true))
    } else if code == "SVC"@ {
        Some(locale_record("El Salvador Colon"@, 2, ","@, "."@, ""@, "20A1"@, "&#x20A1;"@, "¢"@, true))
    } else if code == "SYP"@ {
        Some(locale_record("Syrian Pound"@, 0, ""@, ""@, ""@, "00A3"@, "&#x00A3;"@, "£"@, true))
    } else if code == "SZL"@ {
        Some(locale_record("Lilangeni"@, 2, ""@, "."@, ""@, ""@, ""@, "E"@, true))
    } else if code == "THB"@ {
        Some(locale_record("Baht"@, 2, ","@, "."@, " "@, "0E3F"@, "&#x0E3F;"@, "Bt"@, false))
    } else if code == "TJR"@ {
        Some(locale_record("Tajik Ruble"@, 0, ""@, ""@, ""@, ""@, ""@, "TJR"@, true))
    } else if code == "TJS"@ {
        Some(locale_record("Somoni"@, 0, ""@, ""@, ""@, ""@, ""@, "TJS"@, true))
    } else {
        None
    }
}

pub open spec fn spec_locale_map_f(code: Seq<char>) -> Option<LocaleView> {
    if code == "TMM"@ {
        Some(locale_record("Manat"@, 0, ""@, ""@, ""@, ""@, ""@, "T"@, true))
    } else if code == "TND"@ {
        Some(locale_record("Tunisian Dinar"@, 3, ""@, ""@, ""@, ""@, ""@, "TND"@, true))
    } else if code == "TOP"@ {
        Some(locale_record("Pa'anga"@, 2, ","@, "."@, " "@, ""@, ""@, "$"@, true))
    } else if code == "TPE"@ {
        Some(locale_record("Timor Escudo"@, 0, ""@, ""@, ""@, ""@, ""@, "TPE"@, true))
    } else if code == "TRY"@ {
        Some(locale_record("Turkish Lira"@, 0, ","@, ""@, ""@, "20A4"@, "&#x20A4;"@, "TL"@, false))
    } else if code == "TTD"@ {
        Some(locale_record("Trinidad and Tobago Dollar"@, 0, ""@, ""@, ""@, "0024"@, "&#x0024;"@, "TT$"@, true))
    } else if code == "TWD"@ {
        Some(locale_record("New Taiwan Dollar"@, 0, ""@, ""@, ""@, "0024"@, "&#x0024;"@, "NT$"@, true))
    } else if code == "TZS"@ {
        Some(locale_record("Tanzanian Shilling"@, 2, ","@, "."@, " "@, ""@, ""@, "TZs"@, false))
    } else if code == "UAH"@ {
        Some(locale_record("Hryvnia"@, 2, " "@, ","@, ""@, "20B4"@, "&#x20B4"@, "UAH"@, false))
    } else if code == "UGX"@ {
        Some(locale_record("Uganda Shilling"@, 0, ""@, ""@, ""@, ""@, ""@, "UGX"@, true))
    } else if code == "USD"@ {
        Some(locale_record("US Dollar"@, 2, ","@, "."@, ""@, "0024"@, "&#x0024;"@, "$"@, true))
    } else if code == "UYU"@ {
        Some(locale_record("Peso Uruguayo"@, 2, "."@, ","@, ""@, "20B1"@, "&#x20B1;"@, "$"@, true))
    } else if code == "UZS"@ {
        Some(locale_record("Uzbekistan Sum"@, 0, ""@, ""@, ""@, ""@, ""@, "лв"@, true))
    } else if code == "VEF"@ {
        Some(locale_record("Bolivar"@, 2, "."@, ","@, " "@, ""@, ""@, "Bs."@, true))
    } else if code == "VND"@ {
        Some(locale_record("Dong"@, 2, "."@, ","@, " "@, "20AB"@, "&#x20AB;"@, "₫"@, true))
    } else if code == "VUV"@ {
        Some(locale_record("Vatu"@, 0, ","@, ""@, ""@, ""@, ""@, "VT"@, false))
    } else if code == "WST"@ {
        Some(locale_record("Tala"@, 0, ""@, ""@, ""@, ""@, ""@, "WST"@, true))
    } else if code == "XAF"@ {
        Some(locale_record("CFA Franc BEAC"@, 0, ""@, ""@, ""@, ""@, ""@, "$"@, true))
    } else if code == "XCD"@ {
        Some(locale_record("East Caribbean Dollar"@, 2, ","@, "."@, ""@, "0024"@, "&#x0024;"@, "$"@, true))
    } else if code == "XOF"@ {
        Some(locale_record("CFA Franc BCEAO"@, 0, ""@, ""@, ""@, ""@, ""@, "XOF"@, true))
    } else if code == "XPF"@ {
        Some(locale_record("CFP Franc"@, 0, ""@, ""@, ""@, ""@, ""@, "XPF"@, true))
    } else if code == "YER"@ {
        Some(locale_record("Yemeni Rial"@, 0, ""@, ""@, ""@, "FDFC"@, "&#xFDFC;"@, "﷼"@, true))
    } else if code == "YUN"@ {
        Some(locale_record("New Dinar"@, 0, ""@, ""@, ""@, ""@, ""@, "YUN"@, true))
    } else if code == "ZAR"@ {
        Some(locale_record("Rand"@, 2, " "@, "."@, " "@, "0052"@, "&#x0052;"@, "R"@, true))
    } else if code == "ZMK"@ {
        Some(locale_record("Kwacha"@, 0, ""@, ""@, ""@, ""@, ""@, "ZMK"@, true))
    } else if code == "ZRN"@ {
        Some(locale_record("New Zaire"@, 0, ""@, ""@, ""@, ""@, ""@, "ZRN"@, true))
    } else if code == "ZWD"@ {
        Some(locale_record("Zimbabwe Dollar "@, 2, " "@, "."@, ""@, "0024"@, "&#x0024;"@, "Z$"@, true))
    } else {
        None
    }
}

/// The locale table: the record for a currency code, or `None` when
/// the code is not known.
pub open spec fn spec_locale_map(code: Seq<char>) -> Option<LocaleView> {
    if spec_locale_map_a(code) is Some {
        spec_locale_map_a(code)
    } else if spec_locale_map_b(code) is Some {
        spec_locale_map_b(code)
    } else if spec_locale_map_c(code) is Some {
        spec_locale_map_c(code)
    } else if spec_locale_map_d(code) is Some {
        spec_locale_map_d(code)
    } else if spec_locale_map_e(code) is Some {
        spec_locale_map_e(code)
    } else if spec_locale_map_f(code) is Some {
        spec_locale_map_f(code)
    } else {
        None
    }
}

fn locale_map_a(currency: &str) -> (r: Option<Locale>)
    ensures
        match r {
            Some(lc) => spec_locale_map_a(currency@) == Some(lc@),
            None => spec_locale_map_a(currency@) is None,
        },
{
    if str_eq(currency, "AED") {
        return Some(Locale::new("UAE Dirham", 2, ",", ".", " ", "", "", "Dhs.", true));
    }
    if str_eq(currency, "AFA") {
        return Some(Locale::new("Afghani", 0, "", "", "060B", "&#x060B;", "", "؋", true));
    }
    if str_eq(currency, "ALL") {
        return Some(Locale::new("Lek", 2, "", "", "", "", "", "Lek", true));
    }
    if str_eq(currency, "AMD") {
        return Some(Locale::new("Armenian Dram", 2, ",", ".", "", "", "", "֏", false));
    }
    if str_eq(currency, "ANG") {
        return Some(Locale::new("Antillian Guilder", 2, ".", ",", " ", "0192", "&#x0192;", "ƒ", true));
    }
    if str_eq(currency, "AOA") {
        return Some(Locale::new("New Kwanza", 0, "", "", "", "", "", "Kz", true));
    }
    if str_eq(currency, "ARS") {
        return Some(Locale::new("Argentine Peso", 2, ".", ",", "", "20B1", "&#x20B1;", "$", true));
    }
    if str_eq(currency, "ATS") {
        return Some(Locale::new("Schilling", 2, ".", ",", " ", "", "", "öS", true));
    }
    if str_eq(currency, "AUD") {
        return Some(Locale::new("Australian Dollar", 2, " ", ".", "", "0024", "&#x0024;", "$", true));
    }
    if str_eq(currency, "AWG") {
        return Some(Locale::new("Aruban Guilder", 2, ",", ".", " ", "0192", "&#x0192;", "ƒ", true));
    }
    if str_eq(currency, "AZN") {
        return Some(Locale::new("Azerbaijanian Manat", 2, "", "", "", "", "", "₼", true));
    }
    if str_eq(currency, "BAM") {
        return Some(Locale::new("Convertible Marks", 2, ",", ".", "", "", "", "KM", false));
    }
    if str_eq(currency, "BBD") {
        return Some(Locale::new("Barbados Dollar", 2, "", "", "", "0024", "&#x0024;", "Bds$", true));
    }
    if str_eq(currency, "BDT") {
        return Some(Locale::new("Taka", 2, ",", ".", " ", "", "", "Tk", true));
    }
    if str_eq(currency, "BEF") {
        return Some(Locale::new("Belgian Franc", 0, ".", "", " ", "20A3", "&#x20A3;", "BEF", true));
    }
    if str_eq(currency, "BGN") {
        return Some(Locale::new("Lev", 2, " ", ",", " ", "", "", "лв", false));
    }
    if str_eq(currency, "BHD") {
        return Some(Locale::new("Bahraini Dinar", 3, ",", ".", " ", "", "", "د.ب", true));
    }
    if str_eq(currency, "BIF") {
        return Some(Locale::new("Burundi Franc", 0, "", "", "", "", "", "FBu", true));
    }
    if str_eq(currency, "BMD") {
        return Some(Locale::new("Bermudian Dollar", 2, ",", ".", "", "0024", "&#x0024;", "$", true));
    }
    if str_eq(currency, "BND") {
        return Some(Locale::new("Brunei Dollar", 2, ",", ".", "", "0024", "&#x0024;", "$", true));
    }
    if str_eq(currency, "BOB") {
        return Some(Locale::new("Bolivian Boliviano", 2, ",", ".", "", "", "", "$b", true));
    }
    if str_eq(currency, "BRL") {
        return Some(Locale::new("Brazilian Real", 2, ".", ",", " ", "0052 0024", "R$", "R$", true));
    }
    if str_eq(currency, "BSD") {
        return Some(Locale::new("Bahamian Dollar", 2, ",", ".", "", "0024", "&#x0024;", "$", true));
    }
    if str_eq(currency, "BTN") {
        return Some(Locale::new("Bhutan Ngultrum", 2, "", "", "", "", "", "BTN", true));
    }
    if str_eq(currency, "BWP") {
        return Some(Locale::new("Pula", 2, ",", ".", "", "", "", "P", true));
    }
    if str_eq(currency, "BYR") {
        return Some(Locale::new("Belarussian Ruble", 0, "", "", "", "", "", "p.", true));
    }
    if str_eq(currency, "BZD") {
        return Some(Locale::new("Belize Dollar", 2, ",", ".", "", "0024", "&#x0024;", "$", true));
    }
    if str_eq(currency, "CAD") {
        return Some(Locale::new("Canadian Dollar", 2, ",", ".", "", "0024", "&#x0024;", "CA$", true));
    }
    if str_eq(currency, "CDF") {
        return Some(Locale::new("Franc Congolais", 2, "", "", "", "", "", "FC", true));
    }
    if str_eq(currency, "CHF") {
        return Some(Locale::new("Swiss Franc", 2, "'", ".", " ", "", "", "CHF", true));
    }
    if str_eq(currency, "CLP") {
        return Some(Locale::new("Chilean Peso", 0, ".", "", "", "20B1", "&#x20B1;", "$", true));
    }
    None
}

fn locale_map_b(currency: &str) -> (r: Option<Locale>)
    ensures
        match r {
            Some(lc) => spec_locale_map_b(currency@) == Some(lc@),
            None => spec_locale_map_b(currency@) is None,
        },
{
    if str_eq(currency, "CNY") {
        return Some(Locale::new("Yuan Renminbi", 2, ",", ".", "", "5713", "&#x5713;", "¥", true));
    }
    if str_eq(currency, "COP") {
        return Some(Locale::new("Colombian Peso", 2, ".", ",", "", "20B1", "&#x20B1;", "$", true));
    }
    if str_eq(currency, "CRC") {
        return Some(Locale::new("Costa Rican Colon", 2, ".", ",", " ", "20A1", "&#x20A1;", "₡", true));
    }
    if str_eq(currency, "CUP") {
        return Some(Locale::new("Cuban Peso", 2, ",", ".", " ", "20B1", "&#x20B1;", "$", true));
    }
    if str_eq(currency, "CVE") {
        return Some(Locale::new("Cape Verde Escudo", 0, "", "", "", "", "", "$", true));
    }
    if str_eq(currency, "CYP") {
        return Some(Locale::new("Cyprus Pound", 2, ".", ",", "", "00A3", "&#x00A3;", "£", true));
    }
    if str_eq(currency, "CZK") {
        return Some(Locale::new("Czech Koruna", 2, ".", ",", " ", "", "", "Kč", false));
    }
    if str_eq(currency, "DEM") {
        return Some(Locale::new("Deutsche Mark", 2, ".", ",", "", "", "", "DM", false));
    }
    if str_eq(currency, "DJF") {
        return Some(Locale::new("Djibouti Franc", 0, "", "", "", "", "", "DJF", true));
    }
    if str_eq(currency, "DKK") {
        return Some(Locale::new("Danish Krone", 2, ".", ",", "", "", "", "kr.", true));
    }
    if str_eq(currency, "DOP") {
        return Some(Locale::new("Dominican Peso", 2, ",", ".", " ", "20B1", "&#x20B1;", "$", true));
    }
    if str_eq(currency, "DZD") {
        return Some(Locale::new("Algerian Dinar", 2, "", "", "", "", "", "DA", true));
    }
    if str_eq(currency, "ECS") {
        return Some(Locale::new("Sucre", 0, "", "", "", "", "", "S.", true));
    }
    if str_eq(currency, "EEK") {
        return Some(Locale::new("Kroon", 2, " ", ",", " ", "", "", "kr", false));
    }
    if str_eq(currency, "EGP") {
        return Some(Locale::new("Egyptian Pound", 2, ",", ".", " ", "00A3", "&#x00A3;", "£", true));
    }
    if str_eq(currency, "ERN") {
        return Some(Locale::new("Nakfa", 0, "", "", "", "", "", "NKf", true));
    }
    if str_eq(currency, "ESP") {
        return Some(Locale::new("Spanish Peseta", 0, ".", "", " ", "20A7", "&#x20A7;", "Ptas", false));
    }
    if str_eq(currency, "ETB") {
        return Some(Locale::new("Ethiopian Birr", 0, "", "", "", "", "", "BR", true));
    }
    if str_eq(currency, "EUR") {
        return Some(Locale::new("Euro", 2, ".", ",", "", "20AC", "&#x20AC;", "€", true));
    }
    if str_eq(currency, "FIM") {
        return Some(Locale::new("Markka", 2, " ", ",", " ", "", "", "mk", false));
    }
    if str_eq(currency, "FJD") {
        return Some(Locale::new("Fiji Dollar", 0, "", "", "", "0024", "&#x0024;", "FJ$", true));
    }
    if str_eq(currency, "FKP") {
        return Some(Locale::new("Pound", 0, "", "", "", "00A3", "&#x00A3;", "£", true));
    }
    if str_eq(currency, "FRF") {
        return Some(Locale::new("French Franc", 2, " ", ",", " ", "20A3", "&#x20A3;", "Fr", false));
    }
    if str_eq(currency, "GBP") {
        return Some(Locale::new("Pound Sterling", 2, ",", ".", "", "00A3", "&#x00A3;", "£", true));
    }
    if str_eq(currency, "GEL") {
        return Some(Locale::new("Lari", 0, "", "", "", "", "", "GEL", true));
    }
    if str_eq(currency, "GHS") {
        return Some(Locale::new("Cedi", 2, ",", ".", "", "20B5", "&#x20B5;", "₵", true));
    }
    if str_eq(currency, "GIP") {
        return Some(Locale::new("Gibraltar Pound", 2, ",", ".", "", "00A3", "&#x00A3;", "£", true));
    }
    if str_eq(currency, "GMD") {
        return Some(Locale::new("Dalasi", 0, "", "", "", "", "", "GMD", true));
    }
    if str_eq(currency, "GNF") {
        return Some(Locale::new("Guinea Franc", 0, "", "", "", "", "", "FG", true));
    }
    if str_eq(currency, "GRD") {
        return Some(Locale::new("Drachma", 2, ".", ",", " ", "20AF", "&#x20AF;", "GRD", false));
    }
    if str_eq(currency, "GTQ") {
        return Some(Locale::new("Quetzal", 2, ",", ".", "", "", "", "Q.", true));
    }
    None
}

fn locale_map_c(currency: &str) -> (r: Option<Locale>)
    ensures
        match r {
            Some(lc) => spec_locale_map_c(currency@) == Some(lc@),
            None => spec_locale_map_c(currency@) is None,
        },
{
    if str_eq(currency, "GWP") {
        return Some(Locale::new("Guinea-Bissau Peso", 0, "", "", "", "", "", "GWP", true));
    }
    if str_eq(currency, "GYD") {
        return Some(Locale::new("Guyana Dollar", 0, "", "", "", "0024", "&#x0024;", "$", true));
    }
    if str_eq(currency, "HKD") {
        return Some(Locale::new("Hong Kong Dollar", 2, ",", ".", "", "0024", "&#x0024;", "HK$", true));
    }
    if str_eq(currency, "HNL") {
        return Some(Locale::new("Lempira", 2, ",", ".", " ", "", "", "L", true));
    }
    if str_eq(currency, "HRK") {
        return Some(Locale::new("Kuna", 2, ".", ",", " ", "", "", "kn", false));
    }
    if str_eq(currency, "HTG") {
        return Some(Locale::new("Gourde", 0, "", "", "", "", "", "G", true));
    }
    if str_eq(currency, "HUF") {
        return Some(Locale::new("Forint", 0, ".", "", " ", "", "", "Ft", false));
    }
    if str_eq(currency, "IDR") {
        return Some(Locale::new("Rupiah", 0, ".", ",", "", "", "", "Rp", true));
    }
    if str_eq(currency, "IEP") {
        return Some(Locale::new("Irish Pound", 2, ",", ".", "", "00A3", "&#x00A3;", "£", true));
    }
    if str_eq(currency, "ILS") {
        return Some(Locale::new("New Israeli Sheqel", 2, ",", ".", " ", "20AA", "&#x20AA;", "₪", false));
    }
    if str_eq(currency, "INR") {
        return Some(Locale::new("Indian Rupee", 2, ",", ".", "", "20A8", "&#x20A8;", "₹", true));
    }
    if str_eq(currency, "IQD") {
        return Some(Locale::new("Iraqi Dinar", 3, "", "", "", "", "", "د.ع", true));
    }
    if str_eq(currency, "IRR") {
        return Some(Locale::new("Iranian Rial", 2, ",", ".", " ", "FDFC", "&#xFDFC;", "﷼", true));
    }
    if str_eq(currency, "ISK") {
        return Some(Locale::new("Iceland Krona", 2, ".", ",", " ", "", "", "kr", false));
    }
    if str_eq(currency, "ITL") {
        return Some(Locale::new("Italian Lira", 0, ".", "", " ", "20A4", "&#x20A4;", "L.", true));
    }
    if str_eq(currency, "JMD") {
        return Some(Locale::new("Jamaican Dollar", 2, ",", ".", "", "0024", "&#x0024;", "$", true));
    }
    if str_eq(currency, "JOD") {
        return Some(Locale::new("Jordanian Dinar", 3, ",", ".", " ", "", "", "JD", true));
    }
    if str_eq(currency, "JPY") {
        return Some(Locale::new("Yen", 0, ",", "", "", "00A5", "&#x00A5;", "¥", true));
    }
    if str_eq(currency, "KES") {
        return Some(Locale::new("Kenyan Shilling", 2, ",", ".", "", "", "", "Ksh", true));
    }
    if str_eq(currency, "KGS") {
        return Some(Locale::new("Som", 0, "", "", "", "", "", "лв", true));
    }
    if str_eq(currency, "KHR") {
        return Some(Locale::new("Riel", 2, "", "", "", "17DB", "&#x17DB;", "៛", true));
    }
    if str_eq(currency, "KMF") {
        return Some(Locale::new("Comoro Franc", 0, "", "", "", "", "", "KMF", true));
    }
    if str_eq(currency, "KPW") {
        return Some(Locale::new("North Korean Won", 0, "", "", "", "20A9", "&#x20A9;", "₩", true));
    }
    if str_eq(currency, "KRW") {
        return Some(Locale::new("Won", 0, ",", "", "", "20A9", "&#x20A9;", "₩", true));
    }
    if str_eq(currency, "KWD") {
        return Some(Locale::new("Kuwaiti Dinar", 3, ",", ".", " ", "", "", "ك", true));
    }
    if str_eq(currency, "KYD") {
        return Some(Locale::new("Cayman Islands Dollar", 2, ",", ".", "", "0024", "&#x0024;", "$", true));
    }
    if str_eq(currency, "KZT") {
        return Some(Locale::new("Tenge", 0, "", "", "", "", "", "₸", true));
    }
    if str_eq(currency, "LAK") {
        return Some(Locale::new("Kip", 0, "", "", "", "20AD", "&#x20AD;", "₭", true));
    }
    if str_eq(currency, "LBP") {
        return Some(Locale::new("Lebanese Pound", 0, " ", "", "", "00A3", "&#x00A3;", "ل.ل", false));
    }
    if str_eq(currency, "LKR") {
        return Some(Locale::new("Sri Lanka Rupee", 0, "", "", "", "0BF9", "&#x0BF9;", "₨", true));
    }
    if str_eq(currency, "LRD") {
        return Some(Locale::new("Liberian Dollar", 0, "", "", "", "0024", "&#x0024;", "$", true));
    }
    None
}

fn locale_map_d(currency: &str) -> (r: Option<Locale>)
    ensures
        match r {
            Some(lc) => spec_locale_map_d(currency@) == Some(lc@),
            None => spec_locale_map_d(currency@) is None,
        },
{
    if str_eq(currency, "LSL") {
        return Some(Locale::new("Lesotho Maloti", 0, "", "", "", "", "", "LSL", true));
    }
    if str_eq(currency, "LTL") {
        return Some(Locale::new("Lithuanian Litas", 2, " ", ",", " ", "", "", "Lt", false));
    }
    if str_eq(currency, "LUF") {
        return Some(Locale::new("Luxembourg Franc", 0, "'", "", " ", "20A3", "&#x20A3;", "F", false));
    }
    if str_eq(currency, "LVL") {
        return Some(Locale::new("Latvian Lats", 2, ",", ".", " ", "", "", "Ls", true));
    }
    if str_eq(currency, "LYD") {
        return Some(Locale::new("Libyan Dinar", 0, "", "", "", "", "", "LD", true));
    }
    if str_eq(currency, "MAD") {
        return Some(Locale::new("Moroccan Dirham", 0, "", "", "", "", "", "MAD", true));
    }
    if str_eq(currency, "MDL") {
        return Some(Locale::new("Moldovan Leu", 0, "", "", "", "", "", "MDL", true));
    }
    if str_eq(currency, "MGF") {
        return Some(Locale::new("Malagasy Franc", 0, "", "", "", "", "", "MF", true));
    }
    if str_eq(currency, "MKD") {
        return Some(Locale::new("Denar", 2, ",", ".", " ", "", "", "ден", false));
    }
    if str_eq(currency, "MMK") {
        return Some(Locale::new("Kyat", 0, "", "", "", "", "", "K", true));
    }
    if str_eq(currency, "MNT") {
        return Some(Locale::new("Tugrik", 0, "", "", "", "20AE", "&#x20AE;", "₮", true));
    }
    if str_eq(currency, "MOP") {
        return Some(Locale::new("Pataca", 0, "", "", "", "", "", "MOP$", true));
    }
    if str_eq(currency, "MRO") {
        return Some(Locale::new("Ouguiya", 0, "", "", "", "", "", "MRO", true));
    }
    if str_eq(currency, "MTL") {
        return Some(Locale::new("Maltese Lira", 2, ",", ".", "", "20A4", "&#x20A4;", "Lm", true));
    }
    if str_eq(currency, "MUR") {
        return Some(Locale::new("Mauritius Rupee", 0, ",", "", "", "20A8", "&#x20A8;", "Rs", true));
    }
    if str_eq(currency, "MVR") {
        return Some(Locale::new("Rufiyaa", 0, "", "", "", "", "", "MVR", true));
    }
    if str_eq(currency, "MWK") {
        return Some(Locale::new("Kwacha", 2, ",", ".", "", "", "", "MK", true));
    }
    if str_eq(currency, "MXN") {
        return Some(Locale::new("Mexican Peso", 2, ",", ".", " ", "0024", "&#x0024;", "$", true));
    }
    if str_eq(currency, "MYR") {
        return Some(Locale::new("Malaysian Ringgit", 2, ",", ".", "", "", "", "RM", true));
    }
    if str_eq(currency, "MZN") {
        return Some(Locale::new("Metical", 2, ".", ",", " ", "", "", "Mt", false));
    }
    if str_eq(currency, "NAD") {
        return Some(Locale::new("Namibian Dollar", 0, "", "", "", "0024", "&#x0024;", "$", true));
    }
    if str_eq(currency, "NGN") {
        return Some(Locale::new("Naira", 2, ",", ".", ".", "20A6", "&#x20A6;", "₦", true));
    }
    if str_eq(currency, "NIO") {
        return Some(Locale::new("Cordoba Oro", 0, "", "", "", "", "", "C$", true));
    }
    if str_eq(currency, "NLG") {
        return Some(Locale::new("Netherlands Guilder", 2, ".", ",", " ", "0192", "&#x0192;", "ƒ", true));
    }
    if str_eq(currency, "NOK") {
        return Some(Locale::new("Norwegian Krone", 2, ".", ",", " ", "kr", "kr", "kr", true));
    }
    if str_eq(currency, "NPR") {
        return Some(Locale::new("Nepalese Rupee", 2, ",", ".", " ", "20A8", "&#x20A8;", "Rs.", true));
    }
    if str_eq(currency, "NZD") {
        return Some(Locale::new("New Zealand Dollar", 2, ",", ".", "", "0024", "&#x0024;", "$", true));
    }
    if str_eq(currency, "OMR") {
        return Some(Locale::new("Rial Omani", 3, ",", ".", " ", "FDFC", "&#xFDFC;", "RO", true));
    }
    if str_eq(currency, "PAB") {
        return Some(Locale::new("Balboa", 0, "", "", "", "", "", "B/.", true));
    }
    if str_eq(currency, "PEN") {
        return Some(Locale::new("Nuevo Sol", 2, ",", ".", " ", "S/.", "S/.", "S/.", true));
    }
    if str_eq(currency, "PGK") {
        return Some(Locale::new("Kina", 0, "", "", "", "", "", "K", true));
    }
    None
}

fn locale_map_e(currency: &str) -> (r: Option<Locale>)
    ensures
        match r {
            Some(lc) => spec_locale_map_e(currency@) == Some(lc@),
            None => spec_locale_map_e(currency@) is None,
        },
{
    if str_eq(currency, "PHP") {
        return Some(Locale::new("Philippine Peso", 2, ",", ".", "", "20B1", "&#x20B1;", "₱", true));
    }
    if str_eq(currency, "PKR") {
        return Some(Locale::new("Pakistan Rupee", 2, ",", ".", "", "20A8", "&#x20A8;", "Rs", true));
    }
    if str_eq(currency, "PLN") {
        return Some(Locale::new("Zloty", 2, " ", ",", " ", "", "", "zł", false));
    }
    if str_eq(currency, "PTE") {
        return Some(Locale::new("Portuguese Escudo", 0, ".", "", " ", "", "", "$", false));
    }
    if str_eq(currency, "PYG") {
        return Some(Locale::new("Guarani", 0, "", "", "", "20B2", "&#x20B2;", "Gs", true));
    }
    if str_eq(currency, "QAR") {
        return Some(Locale::new("Qatari Rial", 0, "", "", "", "FDFC", "&#xFDFC;", "﷼", true));
    }
    if str_eq(currency, "RON") {
        return Some(Locale::new("Leu", 2, ".", ",", " ", "", "", "lei", false));
    }
    if str_eq(currency, "RSD") {
        return Some(Locale::new("Serbian Dinar", 2, "", "", "", "", "", "РСД", false));
    }
    if str_eq(currency, "RUB") {
        return Some(Locale::new("Russian Ruble", 2, ".", ",", "", "0440 0443 0431", "&#x0440;&#x0443;&#x0431;", "₽", true));
    }
    if str_eq(currency, "RWF") {
        return Some(Locale::new("Rwanda Franc", 0, "", "", "", "", "", "RWF", true));
    }
    if str_eq(currency, "SAC") {
        return Some(Locale::new("S. African Rand Commerc.", 0, "", "", "", "", "", "SAC", true));
    }
    if str_eq(currency, "SAR") {
        return Some(Locale::new("Saudi Riyal", 2, ",", ".", " ", "FDFC", "&#xFDFC;", "﷼", true));
    }
    if str_eq(currency, "SBD") {
        return Some(Locale::new("Solomon Islands Dollar", 0, "", "", "", "0024", "&#x0024;", "$", true));
    }
    if str_eq(currency, "SCR") {
        return Some(Locale::new("Seychelles Rupee", 0, "", "", "", "20A8", "&#x20A8;", "₨", true));
    }
    if str_eq(currency, "SDG") {
        return Some(Locale::new("Sudanese Dinar", 0, "", "", "", "", "", "LSd", true));
    }
    if str_eq(currency, "SDP") {
        return Some(Locale::new("Sudanese Pound", 0, "", "", "", "", "", "SDP", true));
    }
    if str_eq(currency, "SEK") {
        return Some(Locale::new("Swedish Krona", 2, " ", ",", " ", "", "", "kr", false));
    }
    if str_eq(currency, "SGD") {
        return Some(Locale::new("Singapore Dollar", 2, ",", ".", "", "0024", "&#x0024;", "$", true));
    }
    if str_eq(currency, "SHP") {
        return Some(Locale::new("St Helena Pound", 0, "", "", "", "00A3", "&#x00A3;", "£", true));
    }
    if str_eq(currency, "SIT") {
        return Some(Locale::new("Tolar", 2, ".", ",", " ", "", "", "SIT", false));
    }
    if str_eq(currency, "SKK") {
        return Some(Locale::new("Slovak Koruna", 2, " ", ",", " ", "", "", "Sk", false));
    }
    if str_eq(currency, "SLL") {
        return Some(Locale::new("Leone", 0, "", "", "", "", "", "Le", true));
    }
    if str_eq(currency, "SOS") {
        return Some(Locale::new("Somali Shilling", 0, "", "", "", "", "", "S", true));
    }
    if str_eq(currency, "SRG") {
        return Some(Locale::new("Surinam Guilder", 0, "", "", "", "", "", "SRG", true));
    }
    if str_eq(currency, "STD") {
        return Some(Locale::new("Dobra", 0, "", "", "", "", "", "DB", true));
    }
    if str_eq(currency, "SVC") {
        return Some(Locale::new("El Salvador Colon", 2, ",", ".", "", "20A1", "&#x20A1;", "¢", true));
    }
    if str_eq(currency, "SYP") {
        return Some(Locale::new("Syrian Pound", 0, "", "", "", "00A3", "&#x00A3;", "£", true));
    }
    if str_eq(currency, "SZL") {
        return Some(Locale::new("Lilangeni", 2, "", ".", "", "", "", "E", true));
    }
    if str_eq(currency, "THB") {
        return Some(Locale::new("Baht", 2, ",", ".", " ", "0E3F", "&#x0E3F;", "Bt", false));
    }
    if str_eq(currency, "TJR") {
        return Some(Locale::new("Tajik Ruble", 0, "", "", "", "", "", "TJR", true));
    }
    if str_eq(currency, "TJS") {
        return Some(Locale::new("Somoni", 0, "", "", "", "", "", "TJS", true));
    }
    None
}

fn locale_map_f(currency: &str) -> (r: Option<Locale>)
    ensures
        match r {
            Some(lc) => spec_locale_map_f(currency@) == Some(lc@),
            None => spec_locale_map_f(currency@) is None,
        },
{
    if str_eq(currency, "TMM") {
        return Some(Locale::new("Manat", 0, "", "", "", "", "", "T", true));
    }
    if str_eq(currency, "TND") {
        return Some(Locale::new("Tunisian Dinar", 3, "", "", "", "", "", "TND", true));
    }
    if str_eq(currency, "TOP") {
        return Some(Locale::new("Pa'anga", 2, ",", ".", " ", "", "", "$", true));
    }
    if str_eq(currency, "TPE") {
        return Some(Locale::new("Timor Escudo", 0, "", "", "", "", "", "TPE", true));
    }
    if str_eq(currency, "TRY") {
        return Some(Locale::new("Turkish Lira", 0, ",", "", "", "20A4", "&#x20A4;", "TL", false));
    }
    if str_eq(currency, "TTD") {
        return Some(Locale::new("Trinidad and Tobago Dollar", 0, "", "", "", "0024", "&#x0024;", "TT$", true));
    }
    if str_eq(currency, "TWD") {
        return Some(Locale::new("New Taiwan Dollar", 0, "", "", "", "0024", "&#x0024;", "NT$", true));
    }
    if str_eq(currency, "TZS") {
        return Some(Locale::new("Tanzanian Shilling", 2, ",", ".", " ", "", "", "TZs", false));
    }
    if str_eq(currency, "UAH") {
        return Some(Locale::new("Hryvnia", 2, " ", ",", "", "20B4", "&#x20B4", "UAH", false));
    }
    if str_eq(currency, "UGX") {
        return Some(Locale::new("Uganda Shilling", 0, "", "", "", "", "", "UGX", true));
    }
    if str_eq(currency, "USD") {
        return Some(Locale::new("US Dollar", 2, ",", ".", "", "0024", "&#x0024;", "$", true));
    }
    if str_eq(currency, "UYU") {
        return Some(Locale::new("Peso Uruguayo", 2, ".", ",", "", "20B1", "&#x20B1;", "$", true));
    }
    if str_eq(currency, "UZS") {
        return Some(Locale::new("Uzbekistan Sum", 0, "", "", "", "", "", "лв", true));
    }
    if str_eq(currency, "VEF") {
        return Some(Locale::new("Bolivar", 2, ".", ",", " ", "", "", "Bs.", true));
    }
    if str_eq(currency, "VND") {
        return Some(Locale::new("Dong", 2, ".", ",", " ", "20AB", "&#x20AB;", "₫", true));
    }
    if str_eq(currency, "VUV") {
        return Some(Locale::new("Vatu", 0, ",", "", "", "", "", "VT", false));
    }
    if str_eq(currency, "WST") {
        return Some(Locale::new("Tala", 0, "", "", "", "", "", "WST", true));
    }
    if str_eq(currency, "XAF") {
        return Some(Locale::new("CFA Franc BEAC", 0, "", "", "", "", "", "$", true));
    }
    if str_eq(currency, "XCD") {
        return Some(Locale::new("East Caribbean Dollar", 2, ",", ".", "", "0024", "&#x0024;", "$", true));
    }
    if str_eq(currency, "XOF") {
        return Some(Locale::new("CFA Franc BCEAO", 0, "", "", "", "", "", "XOF", true));
    }
    if str_eq(currency, "XPF") {
        return Some(Locale::new("CFP Franc", 0, "", "", "", "", "", "XPF", true));
    }
    if str_eq(currency, "YER") {
        return Some(Locale::new("Yemeni Rial", 0, "", "", "", "FDFC", "&#xFDFC;", "﷼", true));
    }
    if str_eq(currency, "YUN") {
        return Some(Locale::new("New Dinar", 0, "", "", "", "", "", "YUN", true));
    }
    if str_eq(currency, "ZAR") {
        return Some(Locale::new("Rand", 2, " ", ".", " ", "0052", "&#x0052;", "R", true));
    }
    if str_eq(currency, "ZMK") {
        return Some(Locale::new("Kwacha", 0, "", "", "", "", "", "ZMK", true));
    }
    if str_eq(currency, "ZRN") {
        return Some(Locale::new("New Zaire", 0, "", "", "", "", "", "ZRN", true));
    }
    if str_eq(currency, "ZWD") {
        return Some(Locale::new("Zimbabwe Dollar ", 2, " ", ".", "", "0024", "&#x0024;", "Z$", true));
    }
    None
}

/// Look a currency code up in the locale table.
pub fn locale_map(currency: &str) -> (r: Option<Locale>)
    ensures
        match r {
            Some(lc) => spec_locale_map(currency@) == Some(lc@),
            None => spec_locale_map(currency@) is None,
        },
{
    let ra = locale_map_a(currency);
    if ra.is_some() {
        return ra;
    }
    let rb = locale_map_b(currency);
    if rb.is_some() {
        return rb;
    }
    let rc = locale_map_c(currency);
    if rc.is_some() {
        return rc;
    }
    let rd = locale_map_d(currency);
    if rd.is_some() {
        return rd;
    }
    let re = locale_map_e(currency);
    if re.is_some() {
        return re;
    }
    let rf = locale_map_f(currency);
    if rf.is_some() {
        return rf;
    }
    None
}

} // verus!
