//! ISO 4217 currency definitions, one marker type per currency.
use crate::currency::Currency;
use vstd::prelude::*;

verus! {

/// Afghani
#[derive(Clone, Copy, Debug, PartialEq, Eq, Structural, PartialOrd)]
pub struct AFN;

impl Currency for AFN {
    open spec fn spec_code() -> Seq<char> {
        "AFN"@
    }

    open spec fn spec_minor_units() -> u32 {
        2
    }

    open spec fn spec_symbol() -> Seq<char> {
        "؋"@
    }

    open spec fn spec_name() -> Seq<char> {
        "Afghani"@
    }

    open spec fn spec_numeric_code() -> u32 {
        971
    }

    fn code(&self) -> (r: &'static str) {
        "AFN"
    }

    fn minor_units(&self) -> (r: u32) {
        2
    }

    fn symbol(&self) -> (r: &'static str) {
        "؋"
    }

    fn name(&self) -> (r: &'static str) {
        "Afghani"
    }

    fn numeric_code(&self) -> (r: u32) {
        971
    }
}

/// Euro
#[derive(Clone, Copy, Debug, PartialEq, Eq, Structural, PartialOrd)]
pub struct EUR;

impl Currency for EUR {
    open spec fn spec_code() -> Seq<char> {
        "EUR"@
    }

    open spec fn spec_minor_units() -> u32 {
        2
    }

    open spec fn spec_symbol() -> Seq<char> {
        "€"@
    }

    open spec fn spec_name() -> Seq<char> {
        "Euro"@
    }

    open spec fn spec_numeric_code() -> u32 {
        978
    }

    fn code(&self) -> (r: &'static str) {
        "EUR"
    }

    fn minor_units(&self) -> (r: u32) {
        2
    }

    fn symbol(&self) -> (r: &'static str) {
        "€"
    }

    fn name(&self) -> (r: &'static str) {
        "Euro"
    }

    fn numeric_code(&self) -> (r: u32) {
        978
    }
}

/// Lek
#[derive(Clone, Copy, Debug, PartialEq, Eq, Structural, PartialOrd)]
pub struct ALL;

impl Currency for ALL {
    open spec fn spec_code() -> Seq<char> {
        "ALL"@
    }

    open spec fn spec_minor_units() -> u32 {
        2
    }

    open spec fn spec_symbol() -> Seq<char> {
        "Lek"@
    }

    open spec fn spec_name() -> Seq<char> {
        "Lek"@
    }

    open spec fn spec_numeric_code() -> u32 {
        8
    }

    fn code(&self) -> (r: &'static str) {
        "ALL"
    }

    fn minor_units(&self) -> (r: u32) {
        2
    }

    fn symbol(&self) -> (r: &'static str) {
        "Lek"
    }

    fn name(&self) -> (r: &'static str) {
        "Lek"
    }

    fn numeric_code(&self) -> (r: u32) {
        8
    }
}

/// Algerian Dinar
#[derive(Clone, Copy, Debug, PartialEq, Eq, Structural, PartialOrd)]
pub struct DZD;

impl Currency for DZD {
    open spec fn spec_code() -> Seq<char> {
        "DZD"@
    }

    open spec fn spec_minor_units() -> u32 {
        2
    }

    open spec fn spec_symbol() -> Seq<char> {
        ""@
    }

    open spec fn spec_name() -> Seq<char> {
        "Algerian Dinar"@
    }

    open spec fn spec_numeric_code() -> u32 {
        12
    }

    fn code(&self) -> (r: &'static str) {
        "DZD"
    }

    fn minor_units(&self) -> (r: u32) {
        2
    }

    fn symbol(&self) -> (r: &'static str) {
        ""
    }

    fn name(&self) -> (r: &'static str) {
        "Algerian Dinar"
    }

    fn numeric_code(&self) -> (r: u32) {
        12
    }
}

/// US Dollar
#[derive(Clone, Copy, Debug, PartialEq, Eq, Structural, PartialOrd)]
pub struct USD;

impl Currency for USD {
    open spec fn spec_code() -> Seq<char> {
        "USD"@
    }

    open spec fn spec_minor_units() -> u32 {
        2
    }

    open spec fn spec_symbol() -> Seq<char> {
        "$"@
    }

    open spec fn spec_name() -> Seq<char> {
        "US Dollar"@
    }

    open spec fn spec_numeric_code() -> u32 {
        840
    }

    fn code(&self) -> (r: &'static str) {
        "USD"
    }

    fn minor_units(&self) -> (r: u32) {
        2
    }

    fn symbol(&self) -> (r: &'static str) {
        "$"
    }

    fn name(&self) -> (r: &'static str) {
        "US Dollar"
    }

    fn numeric_code(&self) -> (r: u32) {
        840
    }
}

/// Kwanza
#[derive(Clone, Copy, Debug, PartialEq, Eq, Structural, PartialOrd)]
pub struct AOA;

impl Currency for AOA {
    open spec fn spec_code() -> Seq<char> {
        "AOA"@
    }

    open spec fn spec_minor_units() -> u32 {
        2
    }

    open spec fn spec_symbol() -> Seq<char> {
        ""@
    }

    open spec fn spec_name() -> Seq<char> {
        "Kwanza"@
    }

    open spec fn spec_numeric_code() -> u32 {
        973
    }

    fn code(&self) -> (r: &'static str) {
        "AOA"
    }

    fn minor_units(&self) -> (r: u32) {
        2
    }

    fn symbol(&self) -> (r: &'static str) {
        ""
    }

    fn name(&self) -> (r: &'static str) {
        "Kwanza"
    }

    fn numeric_code(&self) -> (r: u32) {
        973
    }
}

/// East Caribbean Dollar
#[derive(Clone, Copy, Debug, PartialEq, Eq, Structural, PartialOrd)]
pub struct XCD;

impl Currency for XCD {
    open spec fn spec_code() -> Seq<char> {
        "XCD"@
    }

    open spec fn spec_minor_units() -> u32 {
        2
    }

    open spec fn spec_symbol() -> Seq<char> {
        "$"@
    }

    open spec fn spec_name() -> Seq<char> {
        "East Caribbean Dollar"@
    }

    open spec fn spec_numeric_code() -> u32 {
        951
    }

    fn code(&self) -> (r: &'static str) {
        "XCD"
    }

    fn minor_units(&self) -> (r: u32) {
        2
    }

    fn symbol(&self) -> (r: &'static str) {
        "$"
    }

    fn name(&self) -> (r: &'static str) {
        "East Caribbean Dollar"
    }

    fn numeric_code(&self) -> (r: u32) {
        951
    }
}

/// Argentine Peso
#[derive(Clone, Copy, Debug, PartialEq, Eq, Structural, PartialOrd)]
pub struct ARS;

impl Currency for ARS {
    open spec fn spec_code() -> Seq<char> {
        "ARS"@
    }

    open spec fn spec_minor_units() -> u32 {
        2
    }

    open spec fn spec_symbol() -> Seq<char> {
        "$"@
    }

    open spec fn spec_name() -> Seq<char> {
        "Argentine Peso"@
    }

    open spec fn spec_numeric_code() -> u32 {
        32
    }

    fn code(&self) -> (r: &'static str) {
        "ARS"
    }

    fn minor_units(&self) -> (r: u32) {
        2
    }

    fn symbol(&self) -> (r: &'static str) {
        "$"
    }

    fn name(&self) -> (r: &'static str) {
        "Argentine Peso"
    }

    fn numeric_code(&self) -> (r: u32) {
        32
    }
}

/// Armenian Dram
#[derive(Clone, Copy, Debug, PartialEq, Eq, Structural, PartialOrd)]
pub struct AMD;

impl Currency for AMD {
    open spec fn spec_code() -> Seq<char> {
        "AMD"@
    }

    open spec fn spec_minor_units() -> u32 {
        2
    }

    open spec fn spec_symbol() -> Seq<char> {
        ""@
    }

    open spec fn spec_name() -> Seq<char> {
        "Armenian Dram"@
    }

    open spec fn spec_numeric_code() -> u32 {
        51
    }

    fn code(&self) -> (r: &'static str) {
        "AMD"
    }

    fn minor_units(&self) -> (r: u32) {
        2
    }

    fn symbol(&self) -> (r: &'static str) {
        ""
    }

    fn name(&self) -> (r: &'static str) {
        "Armenian Dram"
    }

    fn numeric_code(&self) -> (r: u32) {
        51
    }
}

/// Aruban Florin
#[derive(Clone, Copy, Debug, PartialEq, Eq, Structural, PartialOrd)]
pub struct AWG;

impl Currency for AWG {
    open spec fn spec_code() -> Seq<char> {
        "AWG"@
    }

    open spec fn spec_minor_units() -> u32 {
        2
    }

    open spec fn spec_symbol() -> Seq<char> {
        "ƒ"@
    }

    open spec fn spec_name() -> Seq<char> {
        "Aruban Florin"@
    }

    open spec fn spec_numeric_code() -> u32 {
        533
    }

    fn code(&self) -> (r: &'static str) {
        "AWG"
    }

    fn minor_units(&self) -> (r: u32) {
        2
    }

    fn symbol(&self) -> (r: &'static str) {
        "ƒ"
    }

    fn name(&self) -> (r: &'static str) {
        "Aruban Florin"
    }

    fn numeric_code(&self) -> (r: u32) {
        533
    }
}

/// Australian Dollar
#[derive(Clone, Copy, Debug, PartialEq, Eq, Structural, PartialOrd)]
pub struct AUD;

impl Currency for AUD {
    open spec fn spec_code() -> Seq<char> {
        "AUD"@
    }

    open spec fn spec_minor_units() -> u32 {
        2
    }

    open spec fn spec_symbol() -> Seq<char> {
        "$"@
    }

    open spec fn spec_name() -> Seq<char> {
        "Australian Dollar"@
    }

    open spec fn spec_numeric_code() -> u32 {
        36
    }

    fn code(&self) -> (r: &'static str) {
        "AUD"
    }

    fn minor_units(&self) -> (r: u32) {
        2
    }

    fn symbol(&self) -> (r: &'static str) {
        "$"
    }

    fn name(&self) -> (r: &'static str) {
        "Australian Dollar"
    }

    fn numeric_code(&self) -> (r: u32) {
        36
    }
}

/// Azerbaijan Manat
#[derive(Clone, Copy, Debug, PartialEq, Eq, Structural, PartialOrd)]
pub struct AZN;

impl Currency for AZN {
    open spec fn spec_code() -> Seq<char> {
        "AZN"@
    }

    open spec fn spec_minor_units() -> u32 {
        2
    }

    open spec fn spec_symbol() -> Seq<char> {
        "₼"@
    }

    open spec fn spec_name() -> Seq<char> {
        "Azerbaijan Manat"@
    }

    open spec fn spec_numeric_code() -> u32 {
        944
    }

    fn code(&self) -> (r: &'static str) {
        "AZN"
    }

    fn minor_units(&self) -> (r: u32) {
        2
    }

    fn symbol(&self) -> (r: &'static str) {
        "₼"
    }

    fn name(&self) -> (r: &'static str) {
        "Azerbaijan Manat"
    }

    fn numeric_code(&self) -> (r: u32) {
        944
    }
}

/// Bahamian Dollar
#[derive(Clone, Copy, Debug, PartialEq, Eq, Structural, PartialOrd)]
pub struct BSD;

impl Currency for BSD {
    open spec fn spec_code() -> Seq<char> {
        "BSD"@
    }

    open spec fn spec_minor_units() -> u32 {
        2
    }

    open spec fn spec_symbol() -> Seq<char> {
        "$"@
    }

    open spec fn spec_name() -> Seq<char> {
        "Bahamian Dollar"@
    }

    open spec fn spec_numeric_code() -> u32 {
        44
    }

    fn code(&self) -> (r: &'static str) {
        "BSD"
    }

    fn minor_units(&self) -> (r: u32) {
        2
    }

    fn symbol(&self) -> (r: &'static str) {
        "$"
    }

    fn name(&self) -> (r: &'static str) {
        "Bahamian Dollar"
    }

    fn numeric_code(&self) -> (r: u32) {
        44
    }
}

/// Bahraini Dinar
#[derive(Clone, Copy, Debug, PartialEq, Eq, Structural, PartialOrd)]
pub struct BHD;

impl Currency for BHD {
    open spec fn spec_code() -> Seq<char> {
        "BHD"@
    }

    open spec fn spec_minor_units() -> u32 {
        3
    }

    open spec fn spec_symbol() -> Seq<char> {
        ""@
    }

    open spec fn spec_name() -> Seq<char> {
        "Bahraini Dinar"@
    }

    open spec fn spec_numeric_code() -> u32 {
        48
    }

    fn code(&self) -> (r: &'static str) {
        "BHD"
    }

    fn minor_units(&self) -> (r: u32) {
        3
    }

    fn symbol(&self) -> (r: &'static str) {
        ""
    }

    fn name(&self) -> (r: &'static str) {
        "Bahraini Dinar"
    }

    fn numeric_code(&self) -> (r: u32) {
        48
    }
}

/// Taka
#[derive(Clone, Copy, Debug, PartialEq, Eq, Structural, PartialOrd)]
pub struct BDT;

impl Currency for BDT {
    open spec fn spec_code() -> Seq<char> {
        "BDT"@
    }

    open spec fn spec_minor_units() -> u32 {
        2
    }

    open spec fn spec_symbol() -> Seq<char> {
        ""@
    }

    open spec fn spec_name() -> Seq<char> {
        "Taka"@
    }

    open spec fn spec_numeric_code() -> u32 {
        50
    }

    fn code(&self) -> (r: &'static str) {
        "BDT"
    }

    fn minor_units(&self) -> (r: u32) {
        2
    }

    fn symbol(&self) -> (r: &'static str) {
        ""
    }

    fn name(&self) -> (r: &'static str) {
        "Taka"
    }

    fn numeric_code(&self) -> (r: u32) {
        50
    }
}

/// Barbados Dollar
#[derive(Clone, Copy, Debug, PartialEq, Eq, Structural, PartialOrd)]
pub struct BBD;

impl Currency for BBD {
    open spec fn spec_code() -> Seq<char> {
        "BBD"@
    }

    open spec fn spec_minor_units() -> u32 {
        2
    }

    open spec fn spec_symbol() -> Seq<char> {
        "$"@
    }

    open spec fn spec_name() -> Seq<char> {
        "Barbados Dollar"@
    }

    open spec fn spec_numeric_code() -> u32 {
        52
    }

    fn code(&self) -> (r: &'static str) {
        "BBD"
    }

    fn minor_units(&self) -> (r: u32) {
        2
    }

    fn symbol(&self) -> (r: &'static str) {
        "$"
    }

    fn name(&self) -> (r: &'static str) {
        "Barbados Dollar"
    }

    fn numeric_code(&self) -> (r: u32) {
        52
    }
}

/// Belarusian Ruble
#[derive(Clone, Copy, Debug, PartialEq, Eq, Structural, PartialOrd)]
pub struct BYN;

impl Currency for BYN {
    open spec fn spec_code() -> Seq<char> {
        "BYN"@
    }

    open spec fn spec_minor_units() -> u32 {
        2
    }

    open spec fn spec_symbol() -> Seq<char> {
        "Br"@
    }

    open spec fn spec_name() -> Seq<char> {
        "Belarusian Ruble"@
    }

    open spec fn spec_numeric_code() -> u32 {
        933
    }

    fn code(&self) -> (r: &'static str) {
        "BYN"
    }

    fn minor_units(&self) -> (r: u32) {
        2
    }

    fn symbol(&self) -> (r: &'static str) {
        "Br"
    }

    fn name(&self) -> (r: &'static str) {
        "Belarusian Ruble"
    }

    fn numeric_code(&self) -> (r: u32) {
        933
    }
}

/// Belize Dollar
#[derive(Clone, Copy, Debug, PartialEq, Eq, Structural, PartialOrd)]
pub struct BZD;

impl Currency for BZD {
    open spec fn spec_code() -> Seq<char> {
        "BZD"@
    }

    open spec fn spec_minor_units() -> u32 {
        2
    }

    open spec fn spec_symbol() -> Seq<char> {
        "BZ$"@
    }

    open spec fn spec_name() -> Seq<char> {
        "Belize Dollar"@
    }

    open spec fn spec_numeric_code() -> u32 {
        84
    }

    fn code(&self) -> (r: &'static str) {
        "BZD"
    }

    fn minor_units(&self) -> (r: u32) {
        2
    }

    fn symbol(&self) -> (r: &'static str) {
        "BZ$"
    }

    fn name(&self) -> (r: &'static str) {
        "Belize Dollar"
    }

    fn numeric_code(&self) -> (r: u32) {
        84
    }
}

/// CFA Franc BCEAO
#[derive(Clone, Copy, Debug, PartialEq, Eq, Structural, PartialOrd)]
pub struct XOF;

impl Currency for XOF {
    open spec fn spec_code() -> Seq<char> {
        "XOF"@
    }

    open spec fn spec_minor_units() -> u32 {
        0
    }

    open spec fn spec_symbol() -> Seq<char> {
        ""@
    }

    open spec fn spec_name() -> Seq<char> {
        "CFA Franc BCEAO"@
    }

    open spec fn spec_numeric_code() -> u32 {
        952
    }

    fn code(&self) -> (r: &'static str) {
        "XOF"
    }

    fn minor_units(&self) -> (r: u32) {
        0
    }

    fn symbol(&self) -> (r: &'static str) {
        ""
    }

    fn name(&self) -> (r: &'static str) {
        "CFA Franc BCEAO"
    }

    fn numeric_code(&self) -> (r: u32) {
        952
    }
}

/// Bermudian Dollar
#[derive(Clone, Copy, Debug, PartialEq, Eq, Structural, PartialOrd)]
pub struct BMD;

impl Currency for BMD {
    open spec fn spec_code() -> Seq<char> {
        "BMD"@
    }

    open spec fn spec_minor_units() -> u32 {
        2
    }

    open spec fn spec_symbol() -> Seq<char> {
        "$"@
    }

    open spec fn spec_name() -> Seq<char> {
        "Bermudian Dollar"@
    }

    open spec fn spec_numeric_code() -> u32 {
        60
    }

    fn code(&self) -> (r: &'static str) {
        "BMD"
    }

    fn minor_units(&self) -> (r: u32) {
        2
    }

    fn symbol(&self) -> (r: &'static str) {
        "$"
    }

    fn name(&self) -> (r: &'static str) {
        "Bermudian Dollar"
    }

    fn numeric_code(&self) -> (r: u32) {
        60
    }
}

/// Indian Rupee
#[derive(Clone, Copy, Debug, PartialEq, Eq, Structural, PartialOrd)]
pub struct INR;

impl Currency for INR {
    open spec fn spec_code() -> Seq<char> {
        "INR"@
    }

    open spec fn spec_minor_units() -> u32 {
        2
    }

    open spec fn spec_symbol() -> Seq<char> {
        "₹"@
    }

    open spec fn spec_name() -> Seq<char> {
        "Indian Rupee"@
    }

    open spec fn spec_numeric_code() -> u32 {
        356
    }

    fn code(&self) -> (r: &'static str) {
        "INR"
    }

    fn minor_units(&self) -> (r: u32) {
        2
    }

    fn symbol(&self) -> (r: &'static str) {
        "₹"
    }

    fn name(&self) -> (r: &'static str) {
        "Indian Rupee"
    }

    fn numeric_code(&self) -> (r: u32) {
        356
    }
}

/// Ngultrum
#[derive(Clone, Copy, Debug, PartialEq, Eq, Structural, PartialOrd)]
pub struct BTN;

impl Currency for BTN {
    open spec fn spec_code() -> Seq<char> {
        "BTN"@
    }

    open spec fn spec_minor_units() -> u32 {
        2
    }

    open spec fn spec_symbol() -> Seq<char> {
        ""@
    }

    open spec fn spec_name() -> Seq<char> {
        "Ngultrum"@
    }

    open spec fn spec_numeric_code() -> u32 {
        64
    }

    fn code(&self) -> (r: &'static str) {
        "BTN"
    }

    fn minor_units(&self) -> (r: u32) {
        2
    }

    fn symbol(&self) -> (r: &'static str) {
        ""
    }

    fn name(&self) -> (r: &'static str) {
        "Ngultrum"
    }

    fn numeric_code(&self) -> (r: u32) {
        64
    }
}

/// Boliviano
#[derive(Clone, Copy, Debug, PartialEq, Eq, Structural, PartialOrd)]
pub struct BOB;

impl Currency for BOB {
    open spec fn spec_code() -> Seq<char> {
        "BOB"@
    }

    open spec fn spec_minor_units() -> u32 {
        2
    }

    open spec fn spec_symbol() -> Seq<char> {
        "$b"@
    }

    open spec fn spec_name() -> Seq<char> {
        "Boliviano"@
    }

    open spec fn spec_numeric_code() -> u32 {
        68
    }

    fn code(&self) -> (r: &'static str) {
        "BOB"
    }

    fn minor_units(&self) -> (r: u32) {
        2
    }

    fn symbol(&self) -> (r: &'static str) {
        "$b"
    }

    fn name(&self) -> (r: &'static str) {
        "Boliviano"
    }

    fn numeric_code(&self) -> (r: u32) {
        68
    }
}

/// Mvdol
#[derive(Clone, Copy, Debug, PartialEq, Eq, Structural, PartialOrd)]
pub struct BOV;

impl Currency for BOV {
    open spec fn spec_code() -> Seq<char> {
        "BOV"@
    }

    open spec fn spec_minor_units() -> u32 {
        2
    }

    open spec fn spec_symbol() -> Seq<char> {
        ""@
    }

    open spec fn spec_name() -> Seq<char> {
        "Mvdol"@
    }

    open spec fn spec_numeric_code() -> u32 {
        984
    }

    fn code(&self) -> (r: &'static str) {
        "BOV"
    }

    fn minor_units(&self) -> (r: u32) {
        2
    }

    fn symbol(&self) -> (r: &'static str) {
        ""
    }

    fn name(&self) -> (r: &'static str) {
        "Mvdol"
    }

    fn numeric_code(&self) -> (r: u32) {
        984
    }
}

/// Convertible Mark
#[derive(Clone, Copy, Debug, PartialEq, Eq, Structural, PartialOrd)]
pub struct BAM;

impl Currency for BAM {
    open spec fn spec_code() -> Seq<char> {
        "BAM"@
    }

    open spec fn spec_minor_units() -> u32 {
        2
    }

    open spec fn spec_symbol() -> Seq<char> {
        "KM"@
    }

    open spec fn spec_name() -> Seq<char> {
        "Convertible Mark"@
    }

    open spec fn spec_numeric_code() -> u32 {
        977
    }

    fn code(&self) -> (r: &'static str) {
        "BAM"
    }

    fn minor_units(&self) -> (r: u32) {
        2
    }

    fn symbol(&self) -> (r: &'static str) {
        "KM"
    }

    fn name(&self) -> (r: &'static str) {
        "Convertible Mark"
    }

    fn numeric_code(&self) -> (r: u32) {
        977
    }
}

/// Pula
#[derive(Clone, Copy, Debug, PartialEq, Eq, Structural, PartialOrd)]
pub struct BWP;

impl Currency for BWP {
    open spec fn spec_code() -> Seq<char> {
        "BWP"@
    }

    open spec fn spec_minor_units() -> u32 {
        2
    }

    open spec fn spec_symbol() -> Seq<char> {
        "P"@
    }

    open spec fn spec_name() -> Seq<char> {
        "Pula"@
    }

    open spec fn spec_numeric_code() -> u32 {
        72
    }

    fn code(&self) -> (r: &'static str) {
        "BWP"
    }

    fn minor_units(&self) -> (r: u32) {
        2
    }

    fn symbol(&self) -> (r: &'static str) {
        "P"
    }

    fn name(&self) -> (r: &'static str) {
        "Pula"
    }

    fn numeric_code(&self) -> (r: u32) {
        72
    }
}

/// Norwegian Krone
#[derive(Clone, Copy, Debug, PartialEq, Eq, Structural, PartialOrd)]
pub struct NOK;

impl Currency for NOK {
    open spec fn spec_code() -> Seq<char> {
        "NOK"@
    }

    open spec fn spec_minor_units() -> u32 {
        2
    }

    open spec fn spec_symbol() -> Seq<char> {
        "kr"@
    }

    open spec fn spec_name() -> Seq<char> {
        "Norwegian Krone"@
    }

    open spec fn spec_numeric_code() -> u32 {
        578
    }

    fn code(&self) -> (r: &'static str) {
        "NOK"
    }

    fn minor_units(&self) -> (r: u32) {
        2
    }

    fn symbol(&self) -> (r: &'static str) {
        "kr"
    }

    fn name(&self) -> (r: &'static str) {
        "Norwegian Krone"
    }

    fn numeric_code(&self) -> (r: u32) {
        578
    }
}

/// Brazilian Real
#[derive(Clone, Copy, Debug, PartialEq, Eq, Structural, PartialOrd)]
pub struct BRL;

impl Currency for BRL {
    open spec fn spec_code() -> Seq<char> {
        "BRL"@
    }

    open spec fn spec_minor_units() -> u32 {
        2
    }

    open spec fn spec_symbol() -> Seq<char> {
        "R$"@
    }

    open spec fn spec_name() -> Seq<char> {
        "Brazilian Real"@
    }

    open spec fn spec_numeric_code() -> u32 {
        986
    }

    fn code(&self) -> (r: &'static str) {
        "BRL"
    }

    fn minor_units(&self) -> (r: u32) {
        2
    }

    fn symbol(&self) -> (r: &'static str) {
        "R$"
    }

    fn name(&self) -> (r: &'static str) {
        "Brazilian Real"
    }

    fn numeric_code(&self) -> (r: u32) {
        986
    }
}

/// Brunei Dollar
#[derive(Clone, Copy, Debug, PartialEq, Eq, Structural, PartialOrd)]
pub struct BND;

impl Currency for BND {
    open spec fn spec_code() -> Seq<char> {
        "BND"@
    }

    open spec fn spec_minor_units() -> u32 {
        2
    }

    open spec fn spec_symbol() -> Seq<char> {
        "$"@
    }

    open spec fn spec_name() -> Seq<char> {
        "Brunei Dollar"@
    }

    open spec fn spec_numeric_code() -> u32 {
        96
    }

    fn code(&self) -> (r: &'static str) {
        "BND"
    }

    fn minor_units(&self) -> (r: u32) {
        2
    }

    fn symbol(&self) -> (r: &'static str) {
        "$"
    }

    fn name(&self) -> (r: &'static str) {
        "Brunei Dollar"
    }

    fn numeric_code(&self) -> (r: u32) {
        96
    }
}

/// Bulgarian Lev
#[derive(Clone, Copy, Debug, PartialEq, Eq, Structural, PartialOrd)]
pub struct BGN;

impl Currency for BGN {
    open spec fn spec_code() -> Seq<char> {
        "BGN"@
    }

    open spec fn spec_minor_units() -> u32 {
        2
    }

    open spec fn spec_symbol() -> Seq<char> {
        "лв"@
    }

    open spec fn spec_name() -> Seq<char> {
        "Bulgarian Lev"@
    }

    open spec fn spec_numeric_code() -> u32 {
        975
    }

    fn code(&self) -> (r: &'static str) {
        "BGN"
    }

    fn minor_units(&self) -> (r: u32) {
        2
    }

    fn symbol(&self) -> (r: &'static str) {
        "лв"
    }

    fn name(&self) -> (r: &'static str) {
        "Bulgarian Lev"
    }

    fn numeric_code(&self) -> (r: u32) {
        975
    }
}

/// Burundi Franc
#[derive(Clone, Copy, Debug, PartialEq, Eq, Structural, PartialOrd)]
pub struct BIF;

impl Currency for BIF {
    open spec fn spec_code() -> Seq<char> {
        "BIF"@
    }

    open spec fn spec_minor_units() -> u32 {
        0
    }

    open spec fn spec_symbol() -> Seq<char> {
        ""@
    }

    open spec fn spec_name() -> Seq<char> {
        "Burundi Franc"@
    }

    open spec fn spec_numeric_code() -> u32 {
        108
    }

    fn code(&self) -> (r: &'static str) {
        "BIF"
    }

    fn minor_units(&self) -> (r: u32) {
        0
    }

    fn symbol(&self) -> (r: &'static str) {
        ""
    }

    fn name(&self) -> (r: &'static str) {
        "Burundi Franc"
    }

    fn numeric_code(&self) -> (r: u32) {
        108
    }
}

/// Cabo Verde Escudo
#[derive(Clone, Copy, Debug, PartialEq, Eq, Structural, PartialOrd)]
pub struct CVE;

impl Currency for CVE {
    open spec fn spec_code() -> Seq<char> {
        "CVE"@
    }

    open spec fn spec_minor_units() -> u32 {
        2
    }

    open spec fn spec_symbol() -> Seq<char> {
        ""@
    }

    open spec fn spec_name() -> Seq<char> {
        "Cabo Verde Escudo"@
    }

    open spec fn spec_numeric_code() -> u32 {
        132
    }

    fn code(&self) -> (r: &'static str) {
        "CVE"
    }

    fn minor_units(&self) -> (r: u32) {
        2
    }

    fn symbol(&self) -> (r: &'static str) {
        ""
    }

    fn name(&self) -> (r: &'static str) {
        "Cabo Verde Escudo"
    }

    fn numeric_code(&self) -> (r: u32) {
        132
    }
}

/// Riel
#[derive(Clone, Copy, Debug, PartialEq, Eq, Structural, PartialOrd)]
pub struct KHR;

impl Currency for KHR {
    open spec fn spec_code() -> Seq<char> {
        "KHR"@
    }

    open spec fn spec_minor_units() -> u32 {
        2
    }

    open spec fn spec_symbol() -> Seq<char> {
        "៛"@
    }

    open spec fn spec_name() -> Seq<char> {
        "Riel"@
    }

    open spec fn spec_numeric_code() -> u32 {
        116
    }

    fn code(&self) -> (r: &'static str) {
        "KHR"
    }

    fn minor_units(&self) -> (r: u32) {
        2
    }

    fn symbol(&self) -> (r: &'static str) {
        "៛"
    }

    fn name(&self) -> (r: &'static str) {
        "Riel"
    }

    fn numeric_code(&self) -> (r: u32) {
        116
    }
}

/// CFA Franc BEAC
#[derive(Clone, Copy, Debug, PartialEq, Eq, Structural, PartialOrd)]
pub struct XAF;

impl Currency for XAF {
    open spec fn spec_code() -> Seq<char> {
        "XAF"@
    }

    open spec fn spec_minor_units() -> u32 {
        0
    }

    open spec fn spec_symbol() -> Seq<char> {
        ""@
    }

    open spec fn spec_name() -> Seq<char> {
        "CFA Franc BEAC"@
    }

    open spec fn spec_numeric_code() -> u32 {
        950
    }

    fn code(&self) -> (r: &'static str) {
        "XAF"
    }

    fn minor_units(&self) -> (r: u32) {
        0
    }

    fn symbol(&self) -> (r: &'static str) {
        ""
    }

    fn name(&self) -> (r: &'static str) {
        "CFA Franc BEAC"
    }

    fn numeric_code(&self) -> (r: u32) {
        950
    }
}

/// Canadian Dollar
#[derive(Clone, Copy, Debug, PartialEq, Eq, Structural, PartialOrd)]
pub struct CAD;

impl Currency for CAD {
    open spec fn spec_code() -> Seq<char> {
        "CAD"@
    }

    open spec fn spec_minor_units() -> u32 {
        2
    }

    open spec fn spec_symbol() -> Seq<char> {
        "$"@
    }

    open spec fn spec_name() -> Seq<char> {
        "Canadian Dollar"@
    }

    open spec fn spec_numeric_code() -> u32 {
        124
    }

    fn code(&self) -> (r: &'static str) {
        "CAD"
    }

    fn minor_units(&self) -> (r: u32) {
        2
    }

    fn symbol(&self) -> (r: &'static str) {
        "$"
    }

    fn name(&self) -> (r: &'static str) {
        "Canadian Dollar"
    }

    fn numeric_code(&self) -> (r: u32) {
        124
    }
}

/// Cayman Islands Dollar
#[derive(Clone, Copy, Debug, PartialEq, Eq, Structural, PartialOrd)]
pub struct KYD;

impl Currency for KYD {
    open spec fn spec_code() -> Seq<char> {
        "KYD"@
    }

    open spec fn spec_minor_units() -> u32 {
        2
    }

    open spec fn spec_symbol() -> Seq<char> {
        "$"@
    }

    open spec fn spec_name() -> Seq<char> {
        "Cayman Islands Dollar"@
    }

    open spec fn spec_numeric_code() -> u32 {
        136
    }

    fn code(&self) -> (r: &'static str) {
        "KYD"
    }

    fn minor_units(&self) -> (r: u32) {
        2
    }

    fn symbol(&self) -> (r: &'static str) {
        "$"
    }

    fn name(&self) -> (r: &'static str) {
        "Cayman Islands Dollar"
    }

    fn numeric_code(&self) -> (r: u32) {
        136
    }
}

/// Chilean Peso
#[derive(Clone, Copy, Debug, PartialEq, Eq, Structural, PartialOrd)]
pub struct CLP;

impl Currency for CLP {
    open spec fn spec_code() -> Seq<char> {
        "CLP"@
    }

    open spec fn spec_minor_units() -> u32 {
        0
    }

    open spec fn spec_symbol() -> Seq<char> {
        "$"@
    }

    open spec fn spec_name() -> Seq<char> {
        "Chilean Peso"@
    }

    open spec fn spec_numeric_code() -> u32 {
        152
    }

    fn code(&self) -> (r: &'static str) {
        "CLP"
    }

    fn minor_units(&self) -> (r: u32) {
        0
    }

    fn symbol(&self) -> (r: &'static str) {
        "$"
    }

    fn name(&self) -> (r: &'static str) {
        "Chilean Peso"
    }

    fn numeric_code(&self) -> (r: u32) {
        152
    }
}

/// Unidad de Fomento
#[derive(Clone, Copy, Debug, PartialEq, Eq, Structural, PartialOrd)]
pub struct CLF;

impl Currency for CLF {
    open spec fn spec_code() -> Seq<char> {
        "CLF"@
    }

    open spec fn spec_minor_units() -> u32 {
        4
    }

    open spec fn spec_symbol() -> Seq<char> {
        ""@
    }

    open spec fn spec_name() -> Seq<char> {
        "Unidad de Fomento"@
    }

    open spec fn spec_numeric_code() -> u32 {
        990
    }

    fn code(&self) -> (r: &'static str) {
        "CLF"
    }

    fn minor_units(&self) -> (r: u32) {
        4
    }

    fn symbol(&self) -> (r: &'static str) {
        ""
    }

    fn name(&self) -> (r: &'static str) {
        "Unidad de Fomento"
    }

    fn numeric_code(&self) -> (r: u32) {
        990
    }
}

/// Yuan Renminbi
#[derive(Clone, Copy, Debug, PartialEq, Eq, Structural, PartialOrd)]
pub struct CNY;

impl Currency for CNY {
    open spec fn spec_code() -> Seq<char> {
        "CNY"@
    }

    open spec fn spec_minor_units() -> u32 {
        2
    }

    open spec fn spec_symbol() -> Seq<char> {
        "¥"@
    }

    open spec fn spec_name() -> Seq<char> {
        "Yuan Renminbi"@
    }

    open spec fn spec_numeric_code() -> u32 {
        156
    }

    fn code(&self) -> (r: &'static str) {
        "CNY"
    }

    fn minor_units(&self) -> (r: u32) {
        2
    }

    fn symbol(&self) -> (r: &'static str) {
        "¥"
    }

    fn name(&self) -> (r: &'static str) {
        "Yuan Renminbi"
    }

    fn numeric_code(&self) -> (r: u32) {
        156
    }
}

/// Colombian Peso
#[derive(Clone, Copy, Debug, PartialEq, Eq, Structural, PartialOrd)]
pub struct COP;

impl Currency for COP {
    open spec fn spec_code() -> Seq<char> {
        "COP"@
    }

    open spec fn spec_minor_units() -> u32 {
        2
    }

    open spec fn spec_symbol() -> Seq<char> {
        "$"@
    }

    open spec fn spec_name() -> Seq<char> {
        "Colombian Peso"@
    }

    open spec fn spec_numeric_code() -> u32 {
        170
    }

    fn code(&self) -> (r: &'static str) {
        "COP"
    }

    fn minor_units(&self) -> (r: u32) {
        2
    }

    fn symbol(&self) -> (r: &'static str) {
        "$"
    }

    fn name(&self) -> (r: &'static str) {
        "Colombian Peso"
    }

    fn numeric_code(&self) -> (r: u32) {
        170
    }
}

/// Unidad de Valor Real
#[derive(Clone, Copy, Debug, PartialEq, Eq, Structural, PartialOrd)]
pub struct COU;

impl Currency for COU {
    open spec fn spec_code() -> Seq<char> {
        "COU"@
    }

    open spec fn spec_minor_units() -> u32 {
        2
    }

    open spec fn spec_symbol() -> Seq<char> {
        ""@
    }

    open spec fn spec_name() -> Seq<char> {
        "Unidad de Valor Real"@
    }

    open spec fn spec_numeric_code() -> u32 {
        970
    }

    fn code(&self) -> (r: &'static str) {
        "COU"
    }

    fn minor_units(&self) -> (r: u32) {
        2
    }

    fn symbol(&self) -> (r: &'static str) {
        ""
    }

    fn name(&self) -> (r: &'static str) {
        "Unidad de Valor Real"
    }

    fn numeric_code(&self) -> (r: u32) {
        970
    }
}

/// Comorian Franc
#[derive(Clone, Copy, Debug, PartialEq, Eq, Structural, PartialOrd)]
pub struct KMF;

impl Currency for KMF {
    open spec fn spec_code() -> Seq<char> {
        "KMF"@
    }

    open spec fn spec_minor_units() -> u32 {
        0
    }

    open spec fn spec_symbol() -> Seq<char> {
        ""@
    }

    open spec fn spec_name() -> Seq<char> {
        "Comorian Franc "@
    }

    open spec fn spec_numeric_code() -> u32 {
        174
    }

    fn code(&self) -> (r: &'static str) {
        "KMF"
    }

    fn minor_units(&self) -> (r: u32) {
        0
    }

    fn symbol(&self) -> (r: &'static str) {
        ""
    }

    fn name(&self) -> (r: &'static str) {
        "Comorian Franc "
    }

    fn numeric_code(&self) -> (r: u32) {
        174
    }
}

/// Congolese Franc
#[derive(Clone, Copy, Debug, PartialEq, Eq, Structural, PartialOrd)]
pub struct CDF;

impl Currency for CDF {
    open spec fn spec_code() -> Seq<char> {
        "CDF"@
    }

    open spec fn spec_minor_units() -> u32 {
        2
    }

    open spec fn spec_symbol() -> Seq<char> {
        ""@
    }

    open spec fn spec_name() -> Seq<char> {
        "Congolese Franc"@
    }

    open spec fn spec_numeric_code() -> u32 {
        976
    }

    fn code(&self) -> (r: &'static str) {
        "CDF"
    }

    fn minor_units(&self) -> (r: u32) {
        2
    }

    fn symbol(&self) -> (r: &'static str) {
        ""
    }

    fn name(&self) -> (r: &'static str) {
        "Congolese Franc"
    }

    fn numeric_code(&self) -> (r: u32) {
        976
    }
}

/// New Zealand Dollar
#[derive(Clone, Copy, Debug, PartialEq, Eq, Structural, PartialOrd)]
pub struct NZD;

impl Currency for NZD {
    open spec fn spec_code() -> Seq<char> {
        "NZD"@
    }

    open spec fn spec_minor_units() -> u32 {
        2
    }

    open spec fn spec_symbol() -> Seq<char> {
        "$"@
    }

    open spec fn spec_name() -> Seq<char> {
        "New Zealand Dollar"@
    }

    open spec fn spec_numeric_code() -> u32 {
        554
    }

    fn code(&self) -> (r: &'static str) {
        "NZD"
    }

    fn minor_units(&self) -> (r: u32) {
        2
    }

    fn symbol(&self) -> (r: &'static str) {
        "$"
    }

    fn name(&self) -> (r: &'static str) {
        "New Zealand Dollar"
    }

    fn numeric_code(&self) -> (r: u32) {
        554
    }
}

/// Costa Rican Colon
#[derive(Clone, Copy, Debug, PartialEq, Eq, Structural, PartialOrd)]
pub struct CRC;

impl Currency for CRC {
    open spec fn spec_code() -> Seq<char> {
        "CRC"@
    }

    open spec fn spec_minor_units() -> u32 {
        2
    }

    open spec fn spec_symbol() -> Seq<char> {
        "₡"@
    }

    open spec fn spec_name() -> Seq<char> {
        "Costa Rican Colon"@
    }

    open spec fn spec_numeric_code() -> u32 {
        188
    }

    fn code(&self) -> (r: &'static str) {
        "CRC"
    }

    fn minor_units(&self) -> (r: u32) {
        2
    }

    fn symbol(&self) -> (r: &'static str) {
        "₡"
    }

    fn name(&self) -> (r: &'static str) {
        "Costa Rican Colon"
    }

    fn numeric_code(&self) -> (r: u32) {
        188
    }
}

/// Cuban Peso
#[derive(Clone, Copy, Debug, PartialEq, Eq, Structural, PartialOrd)]
pub struct CUP;

impl Currency for CUP {
    open spec fn spec_code() -> Seq<char> {
        "CUP"@
    }

    open spec fn spec_minor_units() -> u32 {
        2
    }

    open spec fn spec_symbol() -> Seq<char> {
        "₱"@
    }

    open spec fn spec_name() -> Seq<char> {
        "Cuban Peso"@
    }

    open spec fn spec_numeric_code() -> u32 {
        192
    }

    fn code(&self) -> (r: &'static str) {
        "CUP"
    }

    fn minor_units(&self) -> (r: u32) {
        2
    }

    fn symbol(&self) -> (r: &'static str) {
        "₱"
    }

    fn name(&self) -> (r: &'static str) {
        "Cuban Peso"
    }

    fn numeric_code(&self) -> (r: u32) {
        192
    }
}

/// Peso Convertible
#[derive(Clone, Copy, Debug, PartialEq, Eq, Structural, PartialOrd)]
pub struct CUC;

impl Currency for CUC {
    open spec fn spec_code() -> Seq<char> {
        "CUC"@
    }

    open spec fn spec_minor_units() -> u32 {
        2
    }

    open spec fn spec_symbol() -> Seq<char> {
        ""@
    }

    open spec fn spec_name() -> Seq<char> {
        "Peso Convertible"@
    }

    open spec fn spec_numeric_code() -> u32 {
        931
    }

    fn code(&self) -> (r: &'static str) {
        "CUC"
    }

    fn minor_units(&self) -> (r: u32) {
        2
    }

    fn symbol(&self) -> (r: &'static str) {
        ""
    }

    fn name(&self) -> (r: &'static str) {
        "Peso Convertible"
    }

    fn numeric_code(&self) -> (r: u32) {
        931
    }
}

/// Netherlands Antillean Guilder
#[derive(Clone, Copy, Debug, PartialEq, Eq, Structural, PartialOrd)]
pub struct ANG;

impl Currency for ANG {
    open spec fn spec_code() -> Seq<char> {
        "ANG"@
    }

    open spec fn spec_minor_units() -> u32 {
        2
    }

    open spec fn spec_symbol() -> Seq<char> {
        "ƒ"@
    }

    open spec fn spec_name() -> Seq<char> {
        "Netherlands Antillean Guilder"@
    }

    open spec fn spec_numeric_code() -> u32 {
        532
    }

    fn code(&self) -> (r: &'static str) {
        "ANG"
    }

    fn minor_units(&self) -> (r: u32) {
        2
    }

    fn symbol(&self) -> (r: &'static str) {
        "ƒ"
    }

    fn name(&self) -> (r: &'static str) {
        "Netherlands Antillean Guilder"
    }

    fn numeric_code(&self) -> (r: u32) {
        532
    }
}

/// Czech Koruna
#[derive(Clone, Copy, Debug, PartialEq, Eq, Structural, PartialOrd)]
pub struct CZK;

impl Currency for CZK {
    open spec fn spec_code() -> Seq<char> {
        "CZK"@
    }

    open spec fn spec_minor_units() -> u32 {
        2
    }

    open spec fn spec_symbol() -> Seq<char> {
        "Kč"@
    }

    open spec fn spec_name() -> Seq<char> {
        "Czech Koruna"@
    }

    open spec fn spec_numeric_code() -> u32 {
        203
    }

    fn code(&self) -> (r: &'static str) {
        "CZK"
    }

    fn minor_units(&self) -> (r: u32) {
        2
    }

    fn symbol(&self) -> (r: &'static str) {
        "Kč"
    }

    fn name(&self) -> (r: &'static str) {
        "Czech Koruna"
    }

    fn numeric_code(&self) -> (r: u32) {
        203
    }
}

/// Danish Krone
#[derive(Clone, Copy, Debug, PartialEq, Eq, Structural, PartialOrd)]
pub struct DKK;

impl Currency for DKK {
    open spec fn spec_code() -> Seq<char> {
        "DKK"@
    }

    open spec fn spec_minor_units() -> u32 {
        2
    }

    open spec fn spec_symbol() -> Seq<char> {
        "kr"@
    }

    open spec fn spec_name() -> Seq<char> {
        "Danish Krone"@
    }

    open spec fn spec_numeric_code() -> u32 {
        208
    }

    fn code(&self) -> (r: &'static str) {
        "DKK"
    }

    fn minor_units(&self) -> (r: u32) {
        2
    }

    fn symbol(&self) -> (r: &'static str) {
        "kr"
    }

    fn name(&self) -> (r: &'static str) {
        "Danish Krone"
    }

    fn numeric_code(&self) -> (r: u32) {
        208
    }
}

/// Djibouti Franc
#[derive(Clone, Copy, Debug, PartialEq, Eq, Structural, PartialOrd)]
pub struct DJF;

impl Currency for DJF {
    open spec fn spec_code() -> Seq<char> {
        "DJF"@
    }

    open spec fn spec_minor_units() -> u32 {
        0
    }

    open spec fn spec_symbol() -> Seq<char> {
        ""@
    }

    open spec fn spec_name() -> Seq<char> {
        "Djibouti Franc"@
    }

    open spec fn spec_numeric_code() -> u32 {
        262
    }

    fn code(&self) -> (r: &'static str) {
        "DJF"
    }

    fn minor_units(&self) -> (r: u32) {
        0
    }

    fn symbol(&self) -> (r: &'static str) {
        ""
    }

    fn name(&self) -> (r: &'static str) {
        "Djibouti Franc"
    }

    fn numeric_code(&self) -> (r: u32) {
        262
    }
}

/// Dominican Peso
#[derive(Clone, Copy, Debug, PartialEq, Eq, Structural, PartialOrd)]
pub struct DOP;

impl Currency for DOP {
    open spec fn spec_code() -> Seq<char> {
        "DOP"@
    }

    open spec fn spec_minor_units() -> u32 {
        2
    }

    open spec fn spec_symbol() -> Seq<char> {
        "RD$"@
    }

    open spec fn spec_name() -> Seq<char> {
        "Dominican Peso"@
    }

    open spec fn spec_numeric_code() -> u32 {
        214
    }

    fn code(&self) -> (r: &'static str) {
        "DOP"
    }

    fn minor_units(&self) -> (r: u32) {
        2
    }

    fn symbol(&self) -> (r: &'static str) {
        "RD$"
    }

    fn name(&self) -> (r: &'static str) {
        "Dominican Peso"
    }

    fn numeric_code(&self) -> (r: u32) {
        214
    }
}

/// Egyptian Pound
#[derive(Clone, Copy, Debug, PartialEq, Eq, Structural, PartialOrd)]
pub struct EGP;

impl Currency for EGP {
    open spec fn spec_code() -> Seq<char> {
        "EGP"@
    }

    open spec fn spec_minor_units() -> u32 {
        2
    }

    open spec fn spec_symbol() -> Seq<char> {
        "£"@
    }

    open spec fn spec_name() -> Seq<char> {
        "Egyptian Pound"@
    }

    open spec fn spec_numeric_code() -> u32 {
        818
    }

    fn code(&self) -> (r: &'static str) {
        "EGP"
    }

    fn minor_units(&self) -> (r: u32) {
        2
    }

    fn symbol(&self) -> (r: &'static str) {
        "£"
    }

    fn name(&self) -> (r: &'static str) {
        "Egyptian Pound"
    }

    fn numeric_code(&self) -> (r: u32) {
        818
    }
}

/// El Salvador Colon
#[derive(Clone, Copy, Debug, PartialEq, Eq, Structural, PartialOrd)]
pub struct SVC;

impl Currency for SVC {
    open spec fn spec_code() -> Seq<char> {
        "SVC"@
    }

    open spec fn spec_minor_units() -> u32 {
        2
    }

    open spec fn spec_symbol() -> Seq<char> {
        "$"@
    }

    open spec fn spec_name() -> Seq<char> {
        "El Salvador Colon"@
    }

    open spec fn spec_numeric_code() -> u32 {
        222
    }

    fn code(&self) -> (r: &'static str) {
        "SVC"
    }

    fn minor_units(&self) -> (r: u32) {
        2
    }

    fn symbol(&self) -> (r: &'static str) {
        "$"
    }

    fn name(&self) -> (r: &'static str) {
        "El Salvador Colon"
    }

    fn numeric_code(&self) -> (r: u32) {
        222
    }
}

/// Nakfa
#[derive(Clone, Copy, Debug, PartialEq, Eq, Structural, PartialOrd)]
pub struct ERN;

impl Currency for ERN {
    open spec fn spec_code() -> Seq<char> {
        "ERN"@
    }

    open spec fn spec_minor_units() -> u32 {
        2
    }

    open spec fn spec_symbol() -> Seq<char> {
        ""@
    }

    open spec fn spec_name() -> Seq<char> {
        "Nakfa"@
    }

    open spec fn spec_numeric_code() -> u32 {
        232
    }

    fn code(&self) -> (r: &'static str) {
        "ERN"
    }

    fn minor_units(&self) -> (r: u32) {
        2
    }

    fn symbol(&self) -> (r: &'static str) {
        ""
    }

    fn name(&self) -> (r: &'static str) {
        "Nakfa"
    }

    fn numeric_code(&self) -> (r: u32) {
        232
    }
}

/// Lilangeni
#[derive(Clone, Copy, Debug, PartialEq, Eq, Structural, PartialOrd)]
pub struct SZL;

impl Currency for SZL {
    open spec fn spec_code() -> Seq<char> {
        "SZL"@
    }

    open spec fn spec_minor_units() -> u32 {
        2
    }

    open spec fn spec_symbol() -> Seq<char> {
        ""@
    }

    open spec fn spec_name() -> Seq<char> {
        "Lilangeni"@
    }

    open spec fn spec_numeric_code() -> u32 {
        748
    }

    fn code(&self) -> (r: &'static str) {
        "SZL"
    }

    fn minor_units(&self) -> (r: u32) {
        2
    }

    fn symbol(&self) -> (r: &'static str) {
        ""
    }

    fn name(&self) -> (r: &'static str) {
        "Lilangeni"
    }

    fn numeric_code(&self) -> (r: u32) {
        748
    }
}

/// Ethiopian Birr
#[derive(Clone, Copy, Debug, PartialEq, Eq, Structural, PartialOrd)]
pub struct ETB;

impl Currency for ETB {
    open spec fn spec_code() -> Seq<char> {
        "ETB"@
    }

    open spec fn spec_minor_units() -> u32 {
        2
    }

    open spec fn spec_symbol() -> Seq<char> {
        ""@
    }

    open spec fn spec_name() -> Seq<char> {
        "Ethiopian Birr"@
    }

    open spec fn spec_numeric_code() -> u32 {
        230
    }

    fn code(&self) -> (r: &'static str) {
        "ETB"
    }

    fn minor_units(&self) -> (r: u32) {
        2
    }

    fn symbol(&self) -> (r: &'static str) {
        ""
    }

    fn name(&self) -> (r: &'static str) {
        "Ethiopian Birr"
    }

    fn numeric_code(&self) -> (r: u32) {
        230
    }
}

/// Falkland Islands Pound
#[derive(Clone, Copy, Debug, PartialEq, Eq, Structural, PartialOrd)]
pub struct FKP;

impl Currency for FKP {
    open spec fn spec_code() -> Seq<char> {
        "FKP"@
    }

    open spec fn spec_minor_units() -> u32 {
        2
    }

    open spec fn spec_symbol() -> Seq<char> {
        "£"@
    }

    open spec fn spec_name() -> Seq<char> {
        "Falkland Islands Pound"@
    }

    open spec fn spec_numeric_code() -> u32 {
        238
    }

    fn code(&self) -> (r: &'static str) {
        "FKP"
    }

    fn minor_units(&self) -> (r: u32) {
        2
    }

    fn symbol(&self) -> (r: &'static str) {
        "£"
    }

    fn name(&self) -> (r: &'static str) {
        "Falkland Islands Pound"
    }

    fn numeric_code(&self) -> (r: u32) {
        238
    }
}

/// Fiji Dollar
#[derive(Clone, Copy, Debug, PartialEq, Eq, Structural, PartialOrd)]
pub struct FJD;

impl Currency for FJD {
    open spec fn spec_code() -> Seq<char> {
        "FJD"@
    }

    open spec fn spec_minor_units() -> u32 {
        2
    }

    open spec fn spec_symbol() -> Seq<char> {
        "$"@
    }

    open spec fn spec_name() -> Seq<char> {
        "Fiji Dollar"@
    }

    open spec fn spec_numeric_code() -> u32 {
        242
    }

    fn code(&self) -> (r: &'static str) {
        "FJD"
    }

    fn minor_units(&self) -> (r: u32) {
        2
    }

    fn symbol(&self) -> (r: &'static str) {
        "$"
    }

    fn name(&self) -> (r: &'static str) {
        "Fiji Dollar"
    }

    fn numeric_code(&self) -> (r: u32) {
        242
    }
}

/// CFP Franc
#[derive(Clone, Copy, Debug, PartialEq, Eq, Structural, PartialOrd)]
pub struct XPF;

impl Currency for XPF {
    open spec fn spec_code() -> Seq<char> {
        "XPF"@
    }

    open spec fn spec_minor_units() -> u32 {
        0
    }

    open spec fn spec_symbol() -> Seq<char> {
        ""@
    }

    open spec fn spec_name() -> Seq<char> {
        "CFP Franc"@
    }

    open spec fn spec_numeric_code() -> u32 {
        953
    }

    fn code(&self) -> (r: &'static str) {
        "XPF"
    }

    fn minor_units(&self) -> (r: u32) {
        0
    }

    fn symbol(&self) -> (r: &'static str) {
        ""
    }

    fn name(&self) -> (r: &'static str) {
        "CFP Franc"
    }

    fn numeric_code(&self) -> (r: u32) {
        953
    }
}

/// Dalasi
#[derive(Clone, Copy, Debug, PartialEq, Eq, Structural, PartialOrd)]
pub struct GMD;

impl Currency for GMD {
    open spec fn spec_code() -> Seq<char> {
        "GMD"@
    }

    open spec fn spec_minor_units() -> u32 {
        2
    }

    open spec fn spec_symbol() -> Seq<char> {
        ""@
    }

    open spec fn spec_name() -> Seq<char> {
        "Dalasi"@
    }

    open spec fn spec_numeric_code() -> u32 {
        270
    }

    fn code(&self) -> (r: &'static str) {
        "GMD"
    }

    fn minor_units(&self) -> (r: u32) {
        2
    }

    fn symbol(&self) -> (r: &'static str) {
        ""
    }

    fn name(&self) -> (r: &'static str) {
        "Dalasi"
    }

    fn numeric_code(&self) -> (r: u32) {
        270
    }
}

/// Lari
#[derive(Clone, Copy, Debug, PartialEq, Eq, Structural, PartialOrd)]
pub struct GEL;

impl Currency for GEL {
    open spec fn spec_code() -> Seq<char> {
        "GEL"@
    }

    open spec fn spec_minor_units() -> u32 {
        2
    }

    open spec fn spec_symbol() -> Seq<char> {
        ""@
    }

    open spec fn spec_name() -> Seq<char> {
        "Lari"@
    }

    open spec fn spec_numeric_code() -> u32 {
        981
    }

    fn code(&self) -> (r: &'static str) {
        "GEL"
    }

    fn minor_units(&self) -> (r: u32) {
        2
    }

    fn symbol(&self) -> (r: &'static str) {
        ""
    }

    fn name(&self) -> (r: &'static str) {
        "Lari"
    }

    fn numeric_code(&self) -> (r: u32) {
        981
    }
}

/// Ghana Cedi
#[derive(Clone, Copy, Debug, PartialEq, Eq, Structural, PartialOrd)]
pub struct GHS;

impl Currency for GHS {
    open spec fn spec_code() -> Seq<char> {
        "GHS"@
    }

    open spec fn spec_minor_units() -> u32 {
        2
    }

    open spec fn spec_symbol() -> Seq<char> {
        "¢"@
    }

    open spec fn spec_name() -> Seq<char> {
        "Ghana Cedi"@
    }

    open spec fn spec_numeric_code() -> u32 {
        936
    }

    fn code(&self) -> (r: &'static str) {
        "GHS"
    }

    fn minor_units(&self) -> (r: u32) {
        2
    }

    fn symbol(&self) -> (r: &'static str) {
        "¢"
    }

    fn name(&self) -> (r: &'static str) {
        "Ghana Cedi"
    }

    fn numeric_code(&self) -> (r: u32) {
        936
    }
}

/// Gibraltar Pound
#[derive(Clone, Copy, Debug, PartialEq, Eq, Structural, PartialOrd)]
pub struct GIP;

impl Currency for GIP {
    open spec fn spec_code() -> Seq<char> {
        "GIP"@
    }

    open spec fn spec_minor_units() -> u32 {
        2
    }

    open spec fn spec_symbol() -> Seq<char> {
        "£"@
    }

    open spec fn spec_name() -> Seq<char> {
        "Gibraltar Pound"@
    }

    open spec fn spec_numeric_code() -> u32 {
        292
    }

    fn code(&self) -> (r: &'static str) {
        "GIP"
    }

    fn minor_units(&self) -> (r: u32) {
        2
    }

    fn symbol(&self) -> (r: &'static str) {
        "£"
    }

    fn name(&self) -> (r: &'static str) {
        "Gibraltar Pound"
    }

    fn numeric_code(&self) -> (r: u32) {
        292
    }
}

/// Quetzal
#[derive(Clone, Copy, Debug, PartialEq, Eq, Structural, PartialOrd)]
pub struct GTQ;

impl Currency for GTQ {
    open spec fn spec_code() -> Seq<char> {
        "GTQ"@
    }

    open spec fn spec_minor_units() -> u32 {
        2
    }

    open spec fn spec_symbol() -> Seq<char> {
        "Q"@
    }

    open spec fn spec_name() -> Seq<char> {
        "Quetzal"@
    }

    open spec fn spec_numeric_code() -> u32 {
        320
    }

    fn code(&self) -> (r: &'static str) {
        "GTQ"
    }

    fn minor_units(&self) -> (r: u32) {
        2
    }

    fn symbol(&self) -> (r: &'static str) {
        "Q"
    }

    fn name(&self) -> (r: &'static str) {
        "Quetzal"
    }

    fn numeric_code(&self) -> (r: u32) {
        320
    }
}

/// Pound Sterling
#[derive(Clone, Copy, Debug, PartialEq, Eq, Structural, PartialOrd)]
pub struct GBP;

impl Currency for GBP {
    open spec fn spec_code() -> Seq<char> {
        "GBP"@
    }

    open spec fn spec_minor_units() -> u32 {
        2
    }

    open spec fn spec_symbol() -> Seq<char> {
        "£"@
    }

    open spec fn spec_name() -> Seq<char> {
        "Pound Sterling"@
    }

    open spec fn spec_numeric_code() -> u32 {
        826
    }

    fn code(&self) -> (r: &'static str) {
        "GBP"
    }

    fn minor_units(&self) -> (r: u32) {
        2
    }

    fn symbol(&self) -> (r: &'static str) {
        "£"
    }

    fn name(&self) -> (r: &'static str) {
        "Pound Sterling"
    }

    fn numeric_code(&self) -> (r: u32) {
        826
    }
}

/// Guinean Franc
#[derive(Clone, Copy, Debug, PartialEq, Eq, Structural, PartialOrd)]
pub struct GNF;

impl Currency for GNF {
    open spec fn spec_code() -> Seq<char> {
        "GNF"@
    }

    open spec fn spec_minor_units() -> u32 {
        0
    }

    open spec fn spec_symbol() -> Seq<char> {
        ""@
    }

    open spec fn spec_name() -> Seq<char> {
        "Guinean Franc"@
    }

    open spec fn spec_numeric_code() -> u32 {
        324
    }

    fn code(&self) -> (r: &'static str) {
        "GNF"
    }

    fn minor_units(&self) -> (r: u32) {
        0
    }

    fn symbol(&self) -> (r: &'static str) {
        ""
    }

    fn name(&self) -> (r: &'static str) {
        "Guinean Franc"
    }

    fn numeric_code(&self) -> (r: u32) {
        324
    }
}

/// Guyana Dollar
#[derive(Clone, Copy, Debug, PartialEq, Eq, Structural, PartialOrd)]
pub struct GYD;

impl Currency for GYD {
    open spec fn spec_code() -> Seq<char> {
        "GYD"@
    }

    open spec fn spec_minor_units() -> u32 {
        2
    }

    open spec fn spec_symbol() -> Seq<char> {
        "$"@
    }

    open spec fn spec_name() -> Seq<char> {
        "Guyana Dollar"@
    }

    open spec fn spec_numeric_code() -> u32 {
        328
    }

    fn code(&self) -> (r: &'static str) {
        "GYD"
    }

    fn minor_units(&self) -> (r: u32) {
        2
    }

    fn symbol(&self) -> (r: &'static str) {
        "$"
    }

    fn name(&self) -> (r: &'static str) {
        "Guyana Dollar"
    }

    fn numeric_code(&self) -> (r: u32) {
        328
    }
}

/// Gourde
#[derive(Clone, Copy, Debug, PartialEq, Eq, Structural, PartialOrd)]
pub struct HTG;

impl Currency for HTG {
    open spec fn spec_code() -> Seq<char> {
        "HTG"@
    }

    open spec fn spec_minor_units() -> u32 {
        2
    }

    open spec fn spec_symbol() -> Seq<char> {
        ""@
    }

    open spec fn spec_name() -> Seq<char> {
        "Gourde"@
    }

    open spec fn spec_numeric_code() -> u32 {
        332
    }

    fn code(&self) -> (r: &'static str) {
        "HTG"
    }

    fn minor_units(&self) -> (r: u32) {
        2
    }

    fn symbol(&self) -> (r: &'static str) {
        ""
    }

    fn name(&self) -> (r: &'static str) {
        "Gourde"
    }

    fn numeric_code(&self) -> (r: u32) {
        332
    }
}

/// Lempira
#[derive(Clone, Copy, Debug, PartialEq, Eq, Structural, PartialOrd)]
pub struct HNL;

impl Currency for HNL {
    open spec fn spec_code() -> Seq<char> {
        "HNL"@
    }

    open spec fn spec_minor_units() -> u32 {
        2
    }

    open spec fn spec_symbol() -> Seq<char> {
        "L"@
    }

    open spec fn spec_name() -> Seq<char> {
        "Lempira"@
    }

    open spec fn spec_numeric_code() -> u32 {
        340
    }

    fn code(&self) -> (r: &'static str) {
        "HNL"
    }

    fn minor_units(&self) -> (r: u32) {
        2
    }

    fn symbol(&self) -> (r: &'static str) {
        "L"
    }

    fn name(&self) -> (r: &'static str) {
        "Lempira"
    }

    fn numeric_code(&self) -> (r: u32) {
        340
    }
}

/// Hong Kong Dollar
#[derive(Clone, Copy, Debug, PartialEq, Eq, Structural, PartialOrd)]
pub struct HKD;

impl Currency for HKD {
    open spec fn spec_code() -> Seq<char> {
        "HKD"@
    }

    open spec fn spec_minor_units() -> u32 {
        2
    }

    open spec fn spec_symbol() -> Seq<char> {
        "$"@
    }

    open spec fn spec_name() -> Seq<char> {
        "Hong Kong Dollar"@
    }

    open spec fn spec_numeric_code() -> u32 {
        344
    }

    fn code(&self) -> (r: &'static str) {
        "HKD"
    }

    fn minor_units(&self) -> (r: u32) {
        2
    }

    fn symbol(&self) -> (r: &'static str) {
        "$"
    }

    fn name(&self) -> (r: &'static str) {
        "Hong Kong Dollar"
    }

    fn numeric_code(&self) -> (r: u32) {
        344
    }
}

/// Forint
#[derive(Clone, Copy, Debug, PartialEq, Eq, Structural, PartialOrd)]
pub struct HUF;

impl Currency for HUF {
    open spec fn spec_code() -> Seq<char> {
        "HUF"@
    }

    open spec fn spec_minor_units() -> u32 {
        2
    }

    open spec fn spec_symbol() -> Seq<char> {
        "Ft"@
    }

    open spec fn spec_name() -> Seq<char> {
        "Forint"@
    }

    open spec fn spec_numeric_code() -> u32 {
        348
    }

    fn code(&self) -> (r: &'static str) {
        "HUF"
    }

    fn minor_units(&self) -> (r: u32) {
        2
    }

    fn symbol(&self) -> (r: &'static str) {
        "Ft"
    }

    fn name(&self) -> (r: &'static str) {
        "Forint"
    }

    fn numeric_code(&self) -> (r: u32) {
        348
    }
}

/// Iceland Krona
#[derive(Clone, Copy, Debug, PartialEq, Eq, Structural, PartialOrd)]
pub struct ISK;

impl Currency for ISK {
    open spec fn spec_code() -> Seq<char> {
        "ISK"@
    }

    open spec fn spec_minor_units() -> u32 {
        0
    }

    open spec fn spec_symbol() -> Seq<char> {
        "kr"@
    }

    open spec fn spec_name() -> Seq<char> {
        "Iceland Krona"@
    }

    open spec fn spec_numeric_code() -> u32 {
        352
    }

    fn code(&self) -> (r: &'static str) {
        "ISK"
    }

    fn minor_units(&self) -> (r: u32) {
        0
    }

    fn symbol(&self) -> (r: &'static str) {
        "kr"
    }

    fn name(&self) -> (r: &'static str) {
        "Iceland Krona"
    }

    fn numeric_code(&self) -> (r: u32) {
        352
    }
}

/// Rupiah
#[derive(Clone, Copy, Debug, PartialEq, Eq, Structural, PartialOrd)]
pub struct IDR;

impl Currency for IDR {
    open spec fn spec_code() -> Seq<char> {
        "IDR"@
    }

    open spec fn spec_minor_units() -> u32 {
        2
    }

    open spec fn spec_symbol() -> Seq<char> {
        "Rp"@
    }

    open spec fn spec_name() -> Seq<char> {
        "Rupiah"@
    }

    open spec fn spec_numeric_code() -> u32 {
        360
    }

    fn code(&self) -> (r: &'static str) {
        "IDR"
    }

    fn minor_units(&self) -> (r: u32) {
        2
    }

    fn symbol(&self) -> (r: &'static str) {
        "Rp"
    }

    fn name(&self) -> (r: &'static str) {
        "Rupiah"
    }

    fn numeric_code(&self) -> (r: u32) {
        360
    }
}

/// SDR (Special Drawing Right)
#[derive(Clone, Copy, Debug, PartialEq, Eq, Structural, PartialOrd)]
pub struct XDR;

impl Currency for XDR {
    open spec fn spec_code() -> Seq<char> {
        "XDR"@
    }

    open spec fn spec_minor_units() -> u32 {
        0
    }

    open spec fn spec_symbol() -> Seq<char> {
        ""@
    }

    open spec fn spec_name() -> Seq<char> {
        "SDR (Special Drawing Right)"@
    }

    open spec fn spec_numeric_code() -> u32 {
        960
    }

    fn code(&self) -> (r: &'static str) {
        "XDR"
    }

    fn minor_units(&self) -> (r: u32) {
        0
    }

    fn symbol(&self) -> (r: &'static str) {
        ""
    }

    fn name(&self) -> (r: &'static str) {
        "SDR (Special Drawing Right)"
    }

    fn numeric_code(&self) -> (r: u32) {
        960
    }
}

/// Iranian Rial
#[derive(Clone, Copy, Debug, PartialEq, Eq, Structural, PartialOrd)]
pub struct IRR;

impl Currency for IRR {
    open spec fn spec_code() -> Seq<char> {
        "IRR"@
    }

    open spec fn spec_minor_units() -> u32 {
        2
    }

    open spec fn spec_symbol() -> Seq<char> {
        "﷼"@
    }

    open spec fn spec_name() -> Seq<char> {
        "Iranian Rial"@
    }

    open spec fn spec_numeric_code() -> u32 {
        364
    }

    fn code(&self) -> (r: &'static str) {
        "IRR"
    }

    fn minor_units(&self) -> (r: u32) {
        2
    }

    fn symbol(&self) -> (r: &'static str) {
        "﷼"
    }

    fn name(&self) -> (r: &'static str) {
        "Iranian Rial"
    }

    fn numeric_code(&self) -> (r: u32) {
        364
    }
}

/// Iraqi Dinar
#[derive(Clone, Copy, Debug, PartialEq, Eq, Structural, PartialOrd)]
pub struct IQD;

impl Currency for IQD {
    open spec fn spec_code() -> Seq<char> {
        "IQD"@
    }

    open spec fn spec_minor_units() -> u32 {
        3
    }

    open spec fn spec_symbol() -> Seq<char> {
        ""@
    }

    open spec fn spec_name() -> Seq<char> {
        "Iraqi Dinar"@
    }

    open spec fn spec_numeric_code() -> u32 {
        368
    }

    fn code(&self) -> (r: &'static str) {
        "IQD"
    }

    fn minor_units(&self) -> (r: u32) {
        3
    }

    fn symbol(&self) -> (r: &'static str) {
        ""
    }

    fn name(&self) -> (r: &'static str) {
        "Iraqi Dinar"
    }

    fn numeric_code(&self) -> (r: u32) {
        368
    }
}

/// New Israeli Sheqel
#[derive(Clone, Copy, Debug, PartialEq, Eq, Structural, PartialOrd)]
pub struct ILS;

impl Currency for ILS {
    open spec fn spec_code() -> Seq<char> {
        "ILS"@
    }

    open spec fn spec_minor_units() -> u32 {
        2
    }

    open spec fn spec_symbol() -> Seq<char> {
        "₪"@
    }

    open spec fn spec_name() -> Seq<char> {
        "New Israeli Sheqel"@
    }

    open spec fn spec_numeric_code() -> u32 {
        376
    }

    fn code(&self) -> (r: &'static str) {
        "ILS"
    }

    fn minor_units(&self) -> (r: u32) {
        2
    }

    fn symbol(&self) -> (r: &'static str) {
        "₪"
    }

    fn name(&self) -> (r: &'static str) {
        "New Israeli Sheqel"
    }

    fn numeric_code(&self) -> (r: u32) {
        376
    }
}

/// Jamaican Dollar
#[derive(Clone, Copy, Debug, PartialEq, Eq, Structural, PartialOrd)]
pub struct JMD;

impl Currency for JMD {
    open spec fn spec_code() -> Seq<char> {
        "JMD"@
    }

    open spec fn spec_minor_units() -> u32 {
        2
    }

    open spec fn spec_symbol() -> Seq<char> {
        "J$"@
    }

    open spec fn spec_name() -> Seq<char> {
        "Jamaican Dollar"@
    }

    open spec fn spec_numeric_code() -> u32 {
        388
    }

    fn code(&self) -> (r: &'static str) {
        "JMD"
    }

    fn minor_units(&self) -> (r: u32) {
        2
    }

    fn symbol(&self) -> (r: &'static str) {
        "J$"
    }

    fn name(&self) -> (r: &'static str) {
        "Jamaican Dollar"
    }

    fn numeric_code(&self) -> (r: u32) {
        388
    }
}

/// Yen
#[derive(Clone, Copy, Debug, PartialEq, Eq, Structural, PartialOrd)]
pub struct JPY;

impl Currency for JPY {
    open spec fn spec_code() -> Seq<char> {
        "JPY"@
    }

    open spec fn spec_minor_units() -> u32 {
        0
    }

    open spec fn spec_symbol() -> Seq<char> {
        "¥"@
    }

    open spec fn spec_name() -> Seq<char> {
        "Yen"@
    }

    open spec fn spec_numeric_code() -> u32 {
        392
    }

    fn code(&self) -> (r: &'static str) {
        "JPY"
    }

    fn minor_units(&self) -> (r: u32) {
        0
    }

    fn symbol(&self) -> (r: &'static str) {
        "¥"
    }

    fn name(&self) -> (r: &'static str) {
        "Yen"
    }

    fn numeric_code(&self) -> (r: u32) {
        392
    }
}

/// Jordanian Dinar
#[derive(Clone, Copy, Debug, PartialEq, Eq, Structural, PartialOrd)]
pub struct JOD;

impl Currency for JOD {
    open spec fn spec_code() -> Seq<char> {
        "JOD"@
    }

    open spec fn spec_minor_units() -> u32 {
        3
    }

    open spec fn spec_symbol() -> Seq<char> {
        ""@
    }

    open spec fn spec_name() -> Seq<char> {
        "Jordanian Dinar"@
    }

    open spec fn spec_numeric_code() -> u32 {
        400
    }

    fn code(&self) -> (r: &'static str) {
        "JOD"
    }

    fn minor_units(&self) -> (r: u32) {
        3
    }

    fn symbol(&self) -> (r: &'static str) {
        ""
    }

    fn name(&self) -> (r: &'static str) {
        "Jordanian Dinar"
    }

    fn numeric_code(&self) -> (r: u32) {
        400
    }
}

/// Tenge
#[derive(Clone, Copy, Debug, PartialEq, Eq, Structural, PartialOrd)]
pub struct KZT;

impl Currency for KZT {
    open spec fn spec_code() -> Seq<char> {
        "KZT"@
    }

    open spec fn spec_minor_units() -> u32 {
        2
    }

    open spec fn spec_symbol() -> Seq<char> {
        "лв"@
    }

    open spec fn spec_name() -> Seq<char> {
        "Tenge"@
    }

    open spec fn spec_numeric_code() -> u32 {
        398
    }

    fn code(&self) -> (r: &'static str) {
        "KZT"
    }

    fn minor_units(&self) -> (r: u32) {
        2
    }

    fn symbol(&self) -> (r: &'static str) {
        "лв"
    }

    fn name(&self) -> (r: &'static str) {
        "Tenge"
    }

    fn numeric_code(&self) -> (r: u32) {
        398
    }
}

/// Kenyan Shilling
#[derive(Clone, Copy, Debug, PartialEq, Eq, Structural, PartialOrd)]
pub struct KES;

impl Currency for KES {
    open spec fn spec_code() -> Seq<char> {
        "KES"@
    }

    open spec fn spec_minor_units() -> u32 {
        2
    }

    open spec fn spec_symbol() -> Seq<char> {
        ""@
    }

    open spec fn spec_name() -> Seq<char> {
        "Kenyan Shilling"@
    }

    open spec fn spec_numeric_code() -> u32 {
        404
    }

    fn code(&self) -> (r: &'static str) {
        "KES"
    }

    fn minor_units(&self) -> (r: u32) {
        2
    }

    fn symbol(&self) -> (r: &'static str) {
        ""
    }

    fn name(&self) -> (r: &'static str) {
        "Kenyan Shilling"
    }

    fn numeric_code(&self) -> (r: u32) {
        404
    }
}

/// North Korean Won
#[derive(Clone, Copy, Debug, PartialEq, Eq, Structural, PartialOrd)]
pub struct KPW;

impl Currency for KPW {
    open spec fn spec_code() -> Seq<char> {
        "KPW"@
    }

    open spec fn spec_minor_units() -> u32 {
        2
    }

    open spec fn spec_symbol() -> Seq<char> {
        "₩"@
    }

    open spec fn spec_name() -> Seq<char> {
        "North Korean Won"@
    }

    open spec fn spec_numeric_code() -> u32 {
        408
    }

    fn code(&self) -> (r: &'static str) {
        "KPW"
    }

    fn minor_units(&self) -> (r: u32) {
        2
    }

    fn symbol(&self) -> (r: &'static str) {
        "₩"
    }

    fn name(&self) -> (r: &'static str) {
        "North Korean Won"
    }

    fn numeric_code(&self) -> (r: u32) {
        408
    }
}

/// Won
#[derive(Clone, Copy, Debug, PartialEq, Eq, Structural, PartialOrd)]
pub struct KRW;

impl Currency for KRW {
    open spec fn spec_code() -> Seq<char> {
        "KRW"@
    }

    open spec fn spec_minor_units() -> u32 {
        0
    }

    open spec fn spec_symbol() -> Seq<char> {
        "₩"@
    }

    open spec fn spec_name() -> Seq<char> {
        "Won"@
    }

    open spec fn spec_numeric_code() -> u32 {
        410
    }

    fn code(&self) -> (r: &'static str) {
        "KRW"
    }

    fn minor_units(&self) -> (r: u32) {
        0
    }

    fn symbol(&self) -> (r: &'static str) {
        "₩"
    }

    fn name(&self) -> (r: &'static str) {
        "Won"
    }

    fn numeric_code(&self) -> (r: u32) {
        410
    }
}

/// Kuwaiti Dinar
#[derive(Clone, Copy, Debug, PartialEq, Eq, Structural, PartialOrd)]
pub struct KWD;

impl Currency for KWD {
    open spec fn spec_code() -> Seq<char> {
        "KWD"@
    }

    open spec fn spec_minor_units() -> u32 {
        3
    }

    open spec fn spec_symbol() -> Seq<char> {
        ""@
    }

    open spec fn spec_name() -> Seq<char> {
        "Kuwaiti Dinar"@
    }

    open spec fn spec_numeric_code() -> u32 {
        414
    }

    fn code(&self) -> (r: &'static str) {
        "KWD"
    }

    fn minor_units(&self) -> (r: u32) {
        3
    }

    fn symbol(&self) -> (r: &'static str) {
        ""
    }

    fn name(&self) -> (r: &'static str) {
        "Kuwaiti Dinar"
    }

    fn numeric_code(&self) -> (r: u32) {
        414
    }
}

/// Som
#[derive(Clone, Copy, Debug, PartialEq, Eq, Structural, PartialOrd)]
pub struct KGS;

impl Currency for KGS {
    open spec fn spec_code() -> Seq<char> {
        "KGS"@
    }

    open spec fn spec_minor_units() -> u32 {
        2
    }

    open spec fn spec_symbol() -> Seq<char> {
        "лв"@
    }

    open spec fn spec_name() -> Seq<char> {
        "Som"@
    }

    open spec fn spec_numeric_code() -> u32 {
        417
    }

    fn code(&self) -> (r: &'static str) {
        "KGS"
    }

    fn minor_units(&self) -> (r: u32) {
        2
    }

    fn symbol(&self) -> (r: &'static str) {
        "лв"
    }

    fn name(&self) -> (r: &'static str) {
        "Som"
    }

    fn numeric_code(&self) -> (r: u32) {
        417
    }
}

/// Lao Kip
#[derive(Clone, Copy, Debug, PartialEq, Eq, Structural, PartialOrd)]
pub struct LAK;

impl Currency for LAK {
    open spec fn spec_code() -> Seq<char> {
        "LAK"@
    }

    open spec fn spec_minor_units() -> u32 {
        2
    }

    open spec fn spec_symbol() -> Seq<char> {
        "₭"@
    }

    open spec fn spec_name() -> Seq<char> {
        "Lao Kip"@
    }

    open spec fn spec_numeric_code() -> u32 {
        418
    }

    fn code(&self) -> (r: &'static str) {
        "LAK"
    }

    fn minor_units(&self) -> (r: u32) {
        2
    }

    fn symbol(&self) -> (r: &'static str) {
        "₭"
    }

    fn name(&self) -> (r: &'static str) {
        "Lao Kip"
    }

    fn numeric_code(&self) -> (r: u32) {
        418
    }
}

/// Lebanese Pound
#[derive(Clone, Copy, Debug, PartialEq, Eq, Structural, PartialOrd)]
pub struct LBP;

impl Currency for LBP {
    open spec fn spec_code() -> Seq<char> {
        "LBP"@
    }

    open spec fn spec_minor_units() -> u32 {
        2
    }

    open spec fn spec_symbol() -> Seq<char> {
        "£"@
    }

    open spec fn spec_name() -> Seq<char> {
        "Lebanese Pound"@
    }

    open spec fn spec_numeric_code() -> u32 {
        422
    }

    fn code(&self) -> (r: &'static str) {
        "LBP"
    }

    fn minor_units(&self) -> (r: u32) {
        2
    }

    fn symbol(&self) -> (r: &'static str) {
        "£"
    }

    fn name(&self) -> (r: &'static str) {
        "Lebanese Pound"
    }

    fn numeric_code(&self) -> (r: u32) {
        422
    }
}

/// Loti
#[derive(Clone, Copy, Debug, PartialEq, Eq, Structural, PartialOrd)]
pub struct LSL;

impl Currency for LSL {
    open spec fn spec_code() -> Seq<char> {
        "LSL"@
    }

    open spec fn spec_minor_units() -> u32 {
        2
    }

    open spec fn spec_symbol() -> Seq<char> {
        ""@
    }

    open spec fn spec_name() -> Seq<char> {
        "Loti"@
    }

    open spec fn spec_numeric_code() -> u32 {
        426
    }

    fn code(&self) -> (r: &'static str) {
        "LSL"
    }

    fn minor_units(&self) -> (r: u32) {
        2
    }

    fn symbol(&self) -> (r: &'static str) {
        ""
    }

    fn name(&self) -> (r: &'static str) {
        "Loti"
    }

    fn numeric_code(&self) -> (r: u32) {
        426
    }
}

/// Rand
#[derive(Clone, Copy, Debug, PartialEq, Eq, Structural, PartialOrd)]
pub struct ZAR;

impl Currency for ZAR {
    open spec fn spec_code() -> Seq<char> {
        "ZAR"@
    }

    open spec fn spec_minor_units() -> u32 {
        2
    }

    open spec fn spec_symbol() -> Seq<char> {
        "R"@
    }

    open spec fn spec_name() -> Seq<char> {
        "Rand"@
    }

    open spec fn spec_numeric_code() -> u32 {
        710
    }

    fn code(&self) -> (r: &'static str) {
        "ZAR"
    }

    fn minor_units(&self) -> (r: u32) {
        2
    }

    fn symbol(&self) -> (r: &'static str) {
        "R"
    }

    fn name(&self) -> (r: &'static str) {
        "Rand"
    }

    fn numeric_code(&self) -> (r: u32) {
        710
    }
}

/// Liberian Dollar
#[derive(Clone, Copy, Debug, PartialEq, Eq, Structural, PartialOrd)]
pub struct LRD;

impl Currency for LRD {
    open spec fn spec_code() -> Seq<char> {
        "LRD"@
    }

    open spec fn spec_minor_units() -> u32 {
        2
    }

    open spec fn spec_symbol() -> Seq<char> {
        "$"@
    }

    open spec fn spec_name() -> Seq<char> {
        "Liberian Dollar"@
    }

    open spec fn spec_numeric_code() -> u32 {
        430
    }

    fn code(&self) -> (r: &'static str) {
        "LRD"
    }

    fn minor_units(&self) -> (r: u32) {
        2
    }

    fn symbol(&self) -> (r: &'static str) {
        "$"
    }

    fn name(&self) -> (r: &'static str) {
        "Liberian Dollar"
    }

    fn numeric_code(&self) -> (r: u32) {
        430
    }
}

/// Libyan Dinar
#[derive(Clone, Copy, Debug, PartialEq, Eq, Structural, PartialOrd)]
pub struct LYD;

impl Currency for LYD {
    open spec fn spec_code() -> Seq<char> {
        "LYD"@
    }

    open spec fn spec_minor_units() -> u32 {
        3
    }

    open spec fn spec_symbol() -> Seq<char> {
        ""@
    }

    open spec fn spec_name() -> Seq<char> {
        "Libyan Dinar"@
    }

    open spec fn spec_numeric_code() -> u32 {
        434
    }

    fn code(&self) -> (r: &'static str) {
        "LYD"
    }

    fn minor_units(&self) -> (r: u32) {
        3
    }

    fn symbol(&self) -> (r: &'static str) {
        ""
    }

    fn name(&self) -> (r: &'static str) {
        "Libyan Dinar"
    }

    fn numeric_code(&self) -> (r: u32) {
        434
    }
}

/// Swiss Franc
#[derive(Clone, Copy, Debug, PartialEq, Eq, Structural, PartialOrd)]
pub struct CHF;

impl Currency for CHF {
    open spec fn spec_code() -> Seq<char> {
        "CHF"@
    }

    open spec fn spec_minor_units() -> u32 {
        2
    }

    open spec fn spec_symbol() -> Seq<char> {
        "CHF"@
    }

    open spec fn spec_name() -> Seq<char> {
        "Swiss Franc"@
    }

    open spec fn spec_numeric_code() -> u32 {
        756
    }

    fn code(&self) -> (r: &'static str) {
        "CHF"
    }

    fn minor_units(&self) -> (r: u32) {
        2
    }

    fn symbol(&self) -> (r: &'static str) {
        "CHF"
    }

    fn name(&self) -> (r: &'static str) {
        "Swiss Franc"
    }

    fn numeric_code(&self) -> (r: u32) {
        756
    }
}

/// Pataca
#[derive(Clone, Copy, Debug, PartialEq, Eq, Structural, PartialOrd)]
pub struct MOP;

impl Currency for MOP {
    open spec fn spec_code() -> Seq<char> {
        "MOP"@
    }

    open spec fn spec_minor_units() -> u32 {
        2
    }

    open spec fn spec_symbol() -> Seq<char> {
        ""@
    }

    open spec fn spec_name() -> Seq<char> {
        "Pataca"@
    }

    open spec fn spec_numeric_code() -> u32 {
        446
    }

    fn code(&self) -> (r: &'static str) {
        "MOP"
    }

    fn minor_units(&self) -> (r: u32) {
        2
    }

    fn symbol(&self) -> (r: &'static str) {
        ""
    }

    fn name(&self) -> (r: &'static str) {
        "Pataca"
    }

    fn numeric_code(&self) -> (r: u32) {
        446
    }
}

/// Denar
#[derive(Clone, Copy, Debug, PartialEq, Eq, Structural, PartialOrd)]
pub struct MKD;

impl Currency for MKD {
    open spec fn spec_code() -> Seq<char> {
        "MKD"@
    }

    open spec fn spec_minor_units() -> u32 {
        2
    }

    open spec fn spec_symbol() -> Seq<char> {
        "ден"@
    }

    open spec fn spec_name() -> Seq<char> {
        "Denar"@
    }

    open spec fn spec_numeric_code() -> u32 {
        807
    }

    fn code(&self) -> (r: &'static str) {
        "MKD"
    }

    fn minor_units(&self) -> (r: u32) {
        2
    }

    fn symbol(&self) -> (r: &'static str) {
        "ден"
    }

    fn name(&self) -> (r: &'static str) {
        "Denar"
    }

    fn numeric_code(&self) -> (r: u32) {
        807
    }
}

/// Malagasy Ariary
#[derive(Clone, Copy, Debug, PartialEq, Eq, Structural, PartialOrd)]
pub struct MGA;

impl Currency for MGA {
    open spec fn spec_code() -> Seq<char> {
        "MGA"@
    }

    open spec fn spec_minor_units() -> u32 {
        2
    }

    open spec fn spec_symbol() -> Seq<char> {
        ""@
    }

    open spec fn spec_name() -> Seq<char> {
        "Malagasy Ariary"@
    }

    open spec fn spec_numeric_code() -> u32 {
        969
    }

    fn code(&self) -> (r: &'static str) {
        "MGA"
    }

    fn minor_units(&self) -> (r: u32) {
        2
    }

    fn symbol(&self) -> (r: &'static str) {
        ""
    }

    fn name(&self) -> (r: &'static str) {
        "Malagasy Ariary"
    }

    fn numeric_code(&self) -> (r: u32) {
        969
    }
}

/// Malawi Kwacha
#[derive(Clone, Copy, Debug, PartialEq, Eq, Structural, PartialOrd)]
pub struct MWK;

impl Currency for MWK {
    open spec fn spec_code() -> Seq<char> {
        "MWK"@
    }

    open spec fn spec_minor_units() -> u32 {
        2
    }

    open spec fn spec_symbol() -> Seq<char> {
        ""@
    }

    open spec fn spec_name() -> Seq<char> {
        "Malawi Kwacha"@
    }

    open spec fn spec_numeric_code() -> u32 {
        454
    }

    fn code(&self) -> (r: &'static str) {
        "MWK"
    }

    fn minor_units(&self) -> (r: u32) {
        2
    }

    fn symbol(&self) -> (r: &'static str) {
        ""
    }

    fn name(&self) -> (r: &'static str) {
        "Malawi Kwacha"
    }

    fn numeric_code(&self) -> (r: u32) {
        454
    }
}

/// Malaysian Ringgit
#[derive(Clone, Copy, Debug, PartialEq, Eq, Structural, PartialOrd)]
pub struct MYR;

impl Currency for MYR {
    open spec fn spec_code() -> Seq<char> {
        "MYR"@
    }

    open spec fn spec_minor_units() -> u32 {
        2
    }

    open spec fn spec_symbol() -> Seq<char> {
        "RM"@
    }

    open spec fn spec_name() -> Seq<char> {
        "Malaysian Ringgit"@
    }

    open spec fn spec_numeric_code() -> u32 {
        458
    }

    fn code(&self) -> (r: &'static str) {
        "MYR"
    }

    fn minor_units(&self) -> (r: u32) {
        2
    }

    fn symbol(&self) -> (r: &'static str) {
        "RM"
    }

    fn name(&self) -> (r: &'static str) {
        "Malaysian Ringgit"
    }

    fn numeric_code(&self) -> (r: u32) {
        458
    }
}

/// Rufiyaa
#[derive(Clone, Copy, Debug, PartialEq, Eq, Structural, PartialOrd)]
pub struct MVR;

impl Currency for MVR {
    open spec fn spec_code() -> Seq<char> {
        "MVR"@
    }

    open spec fn spec_minor_units() -> u32 {
        2
    }

    open spec fn spec_symbol() -> Seq<char> {
        ""@
    }

    open spec fn spec_name() -> Seq<char> {
        "Rufiyaa"@
    }

    open spec fn spec_numeric_code() -> u32 {
        462
    }

    fn code(&self) -> (r: &'static str) {
        "MVR"
    }

    fn minor_units(&self) -> (r: u32) {
        2
    }

    fn symbol(&self) -> (r: &'static str) {
        ""
    }

    fn name(&self) -> (r: &'static str) {
        "Rufiyaa"
    }

    fn numeric_code(&self) -> (r: u32) {
        462
    }
}

/// Ouguiya
#[derive(Clone, Copy, Debug, PartialEq, Eq, Structural, PartialOrd)]
pub struct MRU;

impl Currency for MRU {
    open spec fn spec_code() -> Seq<char> {
        "MRU"@
    }

    open spec fn spec_minor_units() -> u32 {
        2
    }

    open spec fn spec_symbol() -> Seq<char> {
        ""@
    }

    open spec fn spec_name() -> Seq<char> {
        "Ouguiya"@
    }

    open spec fn spec_numeric_code() -> u32 {
        929
    }

    fn code(&self) -> (r: &'static str) {
        "MRU"
    }

    fn minor_units(&self) -> (r: u32) {
        2
    }

    fn symbol(&self) -> (r: &'static str) {
        ""
    }

    fn name(&self) -> (r: &'static str) {
        "Ouguiya"
    }

    fn numeric_code(&self) -> (r: u32) {
        929
    }
}

/// Mauritius Rupee
#[derive(Clone, Copy, Debug, PartialEq, Eq, Structural, PartialOrd)]
pub struct MUR;

impl Currency for MUR {
    open spec fn spec_code() -> Seq<char> {
        "MUR"@
    }

    open spec fn spec_minor_units() -> u32 {
        2
    }

    open spec fn spec_symbol() -> Seq<char> {
        "₨"@
    }

    open spec fn spec_name() -> Seq<char> {
        "Mauritius Rupee"@
    }

    open spec fn spec_numeric_code() -> u32 {
        480
    }

    fn code(&self) -> (r: &'static str) {
        "MUR"
    }

    fn minor_units(&self) -> (r: u32) {
        2
    }

    fn symbol(&self) -> (r: &'static str) {
        "₨"
    }

    fn name(&self) -> (r: &'static str) {
        "Mauritius Rupee"
    }

    fn numeric_code(&self) -> (r: u32) {
        480
    }
}

/// ADB Unit of Account
#[derive(Clone, Copy, Debug, PartialEq, Eq, Structural, PartialOrd)]
pub struct XUA;

impl Currency for XUA {
    open spec fn spec_code() -> Seq<char> {
        "XUA"@
    }

    open spec fn spec_minor_units() -> u32 {
        0
    }

    open spec fn spec_symbol() -> Seq<char> {
        ""@
    }

    open spec fn spec_name() -> Seq<char> {
        "ADB Unit of Account"@
    }

    open spec fn spec_numeric_code() -> u32 {
        965
    }

    fn code(&self) -> (r: &'static str) {
        "XUA"
    }

    fn minor_units(&self) -> (r: u32) {
        0
    }

    fn symbol(&self) -> (r: &'static str) {
        ""
    }

    fn name(&self) -> (r: &'static str) {
        "ADB Unit of Account"
    }

    fn numeric_code(&self) -> (r: u32) {
        965
    }
}

/// Mexican Peso
#[derive(Clone, Copy, Debug, PartialEq, Eq, Structural, PartialOrd)]
pub struct MXN;

impl Currency for MXN {
    open spec fn spec_code() -> Seq<char> {
        "MXN"@
    }

    open spec fn spec_minor_units() -> u32 {
        2
    }

    open spec fn spec_symbol() -> Seq<char> {
        "$"@
    }

    open spec fn spec_name() -> Seq<char> {
        "Mexican Peso"@
    }

    open spec fn spec_numeric_code() -> u32 {
        484
    }

    fn code(&self) -> (r: &'static str) {
        "MXN"
    }

    fn minor_units(&self) -> (r: u32) {
        2
    }

    fn symbol(&self) -> (r: &'static str) {
        "$"
    }

    fn name(&self) -> (r: &'static str) {
        "Mexican Peso"
    }

    fn numeric_code(&self) -> (r: u32) {
        484
    }
}

/// Mexican Unidad de Inversion (UDI)
#[derive(Clone, Copy, Debug, PartialEq, Eq, Structural, PartialOrd)]
pub struct MXV;

impl Currency for MXV {
    open spec fn spec_code() -> Seq<char> {
        "MXV"@
    }

    open spec fn spec_minor_units() -> u32 {
        2
    }

    open spec fn spec_symbol() -> Seq<char> {
        ""@
    }

    open spec fn spec_name() -> Seq<char> {
        "Mexican Unidad de Inversion (UDI)"@
    }

    open spec fn spec_numeric_code() -> u32 {
        979
    }

    fn code(&self) -> (r: &'static str) {
        "MXV"
    }

    fn minor_units(&self) -> (r: u32) {
        2
    }

    fn symbol(&self) -> (r: &'static str) {
        ""
    }

    fn name(&self) -> (r: &'static str) {
        "Mexican Unidad de Inversion (UDI)"
    }

    fn numeric_code(&self) -> (r: u32) {
        979
    }
}

/// Moldovan Leu
#[derive(Clone, Copy, Debug, PartialEq, Eq, Structural, PartialOrd)]
pub struct MDL;

impl Currency for MDL {
    open spec fn spec_code() -> Seq<char> {
        "MDL"@
    }

    open spec fn spec_minor_units() -> u32 {
        2
    }

    open spec fn spec_symbol() -> Seq<char> {
        ""@
    }

    open spec fn spec_name() -> Seq<char> {
        "Moldovan Leu"@
    }

    open spec fn spec_numeric_code() -> u32 {
        498
    }

    fn code(&self) -> (r: &'static str) {
        "MDL"
    }

    fn minor_units(&self) -> (r: u32) {
        2
    }

    fn symbol(&self) -> (r: &'static str) {
        ""
    }

    fn name(&self) -> (r: &'static str) {
        "Moldovan Leu"
    }

    fn numeric_code(&self) -> (r: u32) {
        498
    }
}

/// Tugrik
#[derive(Clone, Copy, Debug, PartialEq, Eq, Structural, PartialOrd)]
pub struct MNT;

impl Currency for MNT {
    open spec fn spec_code() -> Seq<char> {
        "MNT"@
    }

    open spec fn spec_minor_units() -> u32 {
        2
    }

    open spec fn spec_symbol() -> Seq<char> {
        "₮"@
    }

    open spec fn spec_name() -> Seq<char> {
        "Tugrik"@
    }

    open spec fn spec_numeric_code() -> u32 {
        496
    }

    fn code(&self) -> (r: &'static str) {
        "MNT"
    }

    fn minor_units(&self) -> (r: u32) {
        2
    }

    fn symbol(&self) -> (r: &'static str) {
        "₮"
    }

    fn name(&self) -> (r: &'static str) {
        "Tugrik"
    }

    fn numeric_code(&self) -> (r: u32) {
        496
    }
}

/// Moroccan Dirham
#[derive(Clone, Copy, Debug, PartialEq, Eq, Structural, PartialOrd)]
pub struct MAD;

impl Currency for MAD {
    open spec fn spec_code() -> Seq<char> {
        "MAD"@
    }

    open spec fn spec_minor_units() -> u32 {
        2
    }

    open spec fn spec_symbol() -> Seq<char> {
        ""@
    }

    open spec fn spec_name() -> Seq<char> {
        "Moroccan Dirham"@
    }

    open spec fn spec_numeric_code() -> u32 {
        504
    }

    fn code(&self) -> (r: &'static str) {
        "MAD"
    }

    fn minor_units(&self) -> (r: u32) {
        2
    }

    fn symbol(&self) -> (r: &'static str) {
        ""
    }

    fn name(&self) -> (r: &'static str) {
        "Moroccan Dirham"
    }

    fn numeric_code(&self) -> (r: u32) {
        504
    }
}

/// Mozambique Metical
#[derive(Clone, Copy, Debug, PartialEq, Eq, Structural, PartialOrd)]
pub struct MZN;

impl Currency for MZN {
    open spec fn spec_code() -> Seq<char> {
        "MZN"@
    }

    open spec fn spec_minor_units() -> u32 {
        2
    }

    open spec fn spec_symbol() -> Seq<char> {
        "MT"@
    }

    open spec fn spec_name() -> Seq<char> {
        "Mozambique Metical"@
    }

    open spec fn spec_numeric_code() -> u32 {
        943
    }

    fn code(&self) -> (r: &'static str) {
        "MZN"
    }

    fn minor_units(&self) -> (r: u32) {
        2
    }

    fn symbol(&self) -> (r: &'static str) {
        "MT"
    }

    fn name(&self) -> (r: &'static str) {
        "Mozambique Metical"
    }

    fn numeric_code(&self) -> (r: u32) {
        943
    }
}

/// Kyat
#[derive(Clone, Copy, Debug, PartialEq, Eq, Structural, PartialOrd)]
pub struct MMK;

impl Currency for MMK {
    open spec fn spec_code() -> Seq<char> {
        "MMK"@
    }

    open spec fn spec_minor_units() -> u32 {
        2
    }

    open spec fn spec_symbol() -> Seq<char> {
        ""@
    }

    open spec fn spec_name() -> Seq<char> {
        "Kyat"@
    }

    open spec fn spec_numeric_code() -> u32 {
        104
    }

    fn code(&self) -> (r: &'static str) {
        "MMK"
    }

    fn minor_units(&self) -> (r: u32) {
        2
    }

    fn symbol(&self) -> (r: &'static str) {
        ""
    }

    fn name(&self) -> (r: &'static str) {
        "Kyat"
    }

    fn numeric_code(&self) -> (r: u32) {
        104
    }
}

/// Namibia Dollar
#[derive(Clone, Copy, Debug, PartialEq, Eq, Structural, PartialOrd)]
pub struct NAD;

impl Currency for NAD {
    open spec fn spec_code() -> Seq<char> {
        "NAD"@
    }

    open spec fn spec_minor_units() -> u32 {
        2
    }

    open spec fn spec_symbol() -> Seq<char> {
        "$"@
    }

    open spec fn spec_name() -> Seq<char> {
        "Namibia Dollar"@
    }

    open spec fn spec_numeric_code() -> u32 {
        516
    }

    fn code(&self) -> (r: &'static str) {
        "NAD"
    }

    fn minor_units(&self) -> (r: u32) {
        2
    }

    fn symbol(&self) -> (r: &'static str) {
        "$"
    }

    fn name(&self) -> (r: &'static str) {
        "Namibia Dollar"
    }

    fn numeric_code(&self) -> (r: u32) {
        516
    }
}

/// Nepalese Rupee
#[derive(Clone, Copy, Debug, PartialEq, Eq, Structural, PartialOrd)]
pub struct NPR;

impl Currency for NPR {
    open spec fn spec_code() -> Seq<char> {
        "NPR"@
    }

    open spec fn spec_minor_units() -> u32 {
        2
    }

    open spec fn spec_symbol() -> Seq<char> {
        "₨"@
    }

    open spec fn spec_name() -> Seq<char> {
        "Nepalese Rupee"@
    }

    open spec fn spec_numeric_code() -> u32 {
        524
    }

    fn code(&self) -> (r: &'static str) {
        "NPR"
    }

    fn minor_units(&self) -> (r: u32) {
        2
    }

    fn symbol(&self) -> (r: &'static str) {
        "₨"
    }

    fn name(&self) -> (r: &'static str) {
        "Nepalese Rupee"
    }

    fn numeric_code(&self) -> (r: u32) {
        524
    }
}

/// Cordoba Oro
#[derive(Clone, Copy, Debug, PartialEq, Eq, Structural, PartialOrd)]
pub struct NIO;

impl Currency for NIO {
    open spec fn spec_code() -> Seq<char> {
        "NIO"@
    }

    open spec fn spec_minor_units() -> u32 {
        2
    }

    open spec fn spec_symbol() -> Seq<char> {
        "C$"@
    }

    open spec fn spec_name() -> Seq<char> {
        "Cordoba Oro"@
    }

    open spec fn spec_numeric_code() -> u32 {
        558
    }

    fn code(&self) -> (r: &'static str) {
        "NIO"
    }

    fn minor_units(&self) -> (r: u32) {
        2
    }

    fn symbol(&self) -> (r: &'static str) {
        "C$"
    }

    fn name(&self) -> (r: &'static str) {
        "Cordoba Oro"
    }

    fn numeric_code(&self) -> (r: u32) {
        558
    }
}

/// Naira
#[derive(Clone, Copy, Debug, PartialEq, Eq, Structural, PartialOrd)]
pub struct NGN;

impl Currency for NGN {
    open spec fn spec_code() -> Seq<char> {
        "NGN"@
    }

    open spec fn spec_minor_units() -> u32 {
        2
    }

    open spec fn spec_symbol() -> Seq<char> {
        "₦"@
    }

    open spec fn spec_name() -> Seq<char> {
        "Naira"@
    }

    open spec fn spec_numeric_code() -> u32 {
        566
    }

    fn code(&self) -> (r: &'static str) {
        "NGN"
    }

    fn minor_units(&self) -> (r: u32) {
        2
    }

    fn symbol(&self) -> (r: &'static str) {
        "₦"
    }

    fn name(&self) -> (r: &'static str) {
        "Naira"
    }

    fn numeric_code(&self) -> (r: u32) {
        566
    }
}

/// Rial Omani
#[derive(Clone, Copy, Debug, PartialEq, Eq, Structural, PartialOrd)]
pub struct OMR;

impl Currency for OMR {
    open spec fn spec_code() -> Seq<char> {
        "OMR"@
    }

    open spec fn spec_minor_units() -> u32 {
        3
    }

    open spec fn spec_symbol() -> Seq<char> {
        "﷼"@
    }

    open spec fn spec_name() -> Seq<char> {
        "Rial Omani"@
    }

    open spec fn spec_numeric_code() -> u32 {
        512
    }

    fn code(&self) -> (r: &'static str) {
        "OMR"
    }

    fn minor_units(&self) -> (r: u32) {
        3
    }

    fn symbol(&self) -> (r: &'static str) {
        "﷼"
    }

    fn name(&self) -> (r: &'static str) {
        "Rial Omani"
    }

    fn numeric_code(&self) -> (r: u32) {
        512
    }
}

/// Pakistan Rupee
#[derive(Clone, Copy, Debug, PartialEq, Eq, Structural, PartialOrd)]
pub struct PKR;

impl Currency for PKR {
    open spec fn spec_code() -> Seq<char> {
        "PKR"@
    }

    open spec fn spec_minor_units() -> u32 {
        2
    }

    open spec fn spec_symbol() -> Seq<char> {
        "₨"@
    }

    open spec fn spec_name() -> Seq<char> {
        "Pakistan Rupee"@
    }

    open spec fn spec_numeric_code() -> u32 {
        586
    }

    fn code(&self) -> (r: &'static str) {
        "PKR"
    }

    fn minor_units(&self) -> (r: u32) {
        2
    }

    fn symbol(&self) -> (r: &'static str) {
        "₨"
    }

    fn name(&self) -> (r: &'static str) {
        "Pakistan Rupee"
    }

    fn numeric_code(&self) -> (r: u32) {
        586
    }
}

/// Balboa
#[derive(Clone, Copy, Debug, PartialEq, Eq, Structural, PartialOrd)]
pub struct PAB;

impl Currency for PAB {
    open spec fn spec_code() -> Seq<char> {
        "PAB"@
    }

    open spec fn spec_minor_units() -> u32 {
        2
    }

    open spec fn spec_symbol() -> Seq<char> {
        "B/."@
    }

    open spec fn spec_name() -> Seq<char> {
        "Balboa"@
    }

    open spec fn spec_numeric_code() -> u32 {
        590
    }

    fn code(&self) -> (r: &'static str) {
        "PAB"
    }

    fn minor_units(&self) -> (r: u32) {
        2
    }

    fn symbol(&self) -> (r: &'static str) {
        "B/."
    }

    fn name(&self) -> (r: &'static str) {
        "Balboa"
    }

    fn numeric_code(&self) -> (r: u32) {
        590
    }
}

/// Kina
#[derive(Clone, Copy, Debug, PartialEq, Eq, Structural, PartialOrd)]
pub struct PGK;

impl Currency for PGK {
    open spec fn spec_code() -> Seq<char> {
        "PGK"@
    }

    open spec fn spec_minor_units() -> u32 {
        2
    }

    open spec fn spec_symbol() -> Seq<char> {
        ""@
    }

    open spec fn spec_name() -> Seq<char> {
        "Kina"@
    }

    open spec fn spec_numeric_code() -> u32 {
        598
    }

    fn code(&self) -> (r: &'static str) {
        "PGK"
    }

    fn minor_units(&self) -> (r: u32) {
        2
    }

    fn symbol(&self) -> (r: &'static str) {
        ""
    }

    fn name(&self) -> (r: &'static str) {
        "Kina"
    }

    fn numeric_code(&self) -> (r: u32) {
        598
    }
}

/// Guarani
#[derive(Clone, Copy, Debug, PartialEq, Eq, Structural, PartialOrd)]
pub struct PYG;

impl Currency for PYG {
    open spec fn spec_code() -> Seq<char> {
        "PYG"@
    }

    open spec fn spec_minor_units() -> u32 {
        0
    }

    open spec fn spec_symbol() -> Seq<char> {
        "Gs"@
    }

    open spec fn spec_name() -> Seq<char> {
        "Guarani"@
    }

    open spec fn spec_numeric_code() -> u32 {
        600
    }

    fn code(&self) -> (r: &'static str) {
        "PYG"
    }

    fn minor_units(&self) -> (r: u32) {
        0
    }

    fn symbol(&self) -> (r: &'static str) {
        "Gs"
    }

    fn name(&self) -> (r: &'static str) {
        "Guarani"
    }

    fn numeric_code(&self) -> (r: u32) {
        600
    }
}

/// Sol
#[derive(Clone, Copy, Debug, PartialEq, Eq, Structural, PartialOrd)]
pub struct PEN;

impl Currency for PEN {
    open spec fn spec_code() -> Seq<char> {
        "PEN"@
    }

    open spec fn spec_minor_units() -> u32 {
        2
    }

    open spec fn spec_symbol() -> Seq<char> {
        "S/."@
    }

    open spec fn spec_name() -> Seq<char> {
        "Sol"@
    }

    open spec fn spec_numeric_code() -> u32 {
        604
    }

    fn code(&self) -> (r: &'static str) {
        "PEN"
    }

    fn minor_units(&self) -> (r: u32) {
        2
    }

    fn symbol(&self) -> (r: &'static str) {
        "S/."
    }

    fn name(&self) -> (r: &'static str) {
        "Sol"
    }

    fn numeric_code(&self) -> (r: u32) {
        604
    }
}

/// Philippine Peso
#[derive(Clone, Copy, Debug, PartialEq, Eq, Structural, PartialOrd)]
pub struct PHP;

impl Currency for PHP {
    open spec fn spec_code() -> Seq<char> {
        "PHP"@
    }

    open spec fn spec_minor_units() -> u32 {
        2
    }

    open spec fn spec_symbol() -> Seq<char> {
        "₱"@
    }

    open spec fn spec_name() -> Seq<char> {
        "Philippine Peso"@
    }

    open spec fn spec_numeric_code() -> u32 {
        608
    }

    fn code(&self) -> (r: &'static str) {
        "PHP"
    }

    fn minor_units(&self) -> (r: u32) {
        2
    }

    fn symbol(&self) -> (r: &'static str) {
        "₱"
    }

    fn name(&self) -> (r: &'static str) {
        "Philippine Peso"
    }

    fn numeric_code(&self) -> (r: u32) {
        608
    }
}

/// Zloty
#[derive(Clone, Copy, Debug, PartialEq, Eq, Structural, PartialOrd)]
pub struct PLN;

impl Currency for PLN {
    open spec fn spec_code() -> Seq<char> {
        "PLN"@
    }

    open spec fn spec_minor_units() -> u32 {
        2
    }

    open spec fn spec_symbol() -> Seq<char> {
        "zł"@
    }

    open spec fn spec_name() -> Seq<char> {
        "Zloty"@
    }

    open spec fn spec_numeric_code() -> u32 {
        985
    }

    fn code(&self) -> (r: &'static str) {
        "PLN"
    }

    fn minor_units(&self) -> (r: u32) {
        2
    }

    fn symbol(&self) -> (r: &'static str) {
        "zł"
    }

    fn name(&self) -> (r: &'static str) {
        "Zloty"
    }

    fn numeric_code(&self) -> (r: u32) {
        985
    }
}

/// Qatari Rial
#[derive(Clone, Copy, Debug, PartialEq, Eq, Structural, PartialOrd)]
pub struct QAR;

impl Currency for QAR {
    open spec fn spec_code() -> Seq<char> {
        "QAR"@
    }

    open spec fn spec_minor_units() -> u32 {
        2
    }

    open spec fn spec_symbol() -> Seq<char> {
        "﷼"@
    }

    open spec fn spec_name() -> Seq<char> {
        "Qatari Rial"@
    }

    open spec fn spec_numeric_code() -> u32 {
        634
    }

    fn code(&self) -> (r: &'static str) {
        "QAR"
    }

    fn minor_units(&self) -> (r: u32) {
        2
    }

    fn symbol(&self) -> (r: &'static str) {
        "﷼"
    }

    fn name(&self) -> (r: &'static str) {
        "Qatari Rial"
    }

    fn numeric_code(&self) -> (r: u32) {
        634
    }
}

/// Romanian Leu
#[derive(Clone, Copy, Debug, PartialEq, Eq, Structural, PartialOrd)]
pub struct RON;

impl Currency for RON {
    open spec fn spec_code() -> Seq<char> {
        "RON"@
    }

    open spec fn spec_minor_units() -> u32 {
        2
    }

    open spec fn spec_symbol() -> Seq<char> {
        "lei"@
    }

    open spec fn spec_name() -> Seq<char> {
        "Romanian Leu"@
    }

    open spec fn spec_numeric_code() -> u32 {
        946
    }

    fn code(&self) -> (r: &'static str) {
        "RON"
    }

    fn minor_units(&self) -> (r: u32) {
        2
    }

    fn symbol(&self) -> (r: &'static str) {
        "lei"
    }

    fn name(&self) -> (r: &'static str) {
        "Romanian Leu"
    }

    fn numeric_code(&self) -> (r: u32) {
        946
    }
}

/// Russian Ruble
#[derive(Clone, Copy, Debug, PartialEq, Eq, Structural, PartialOrd)]
pub struct RUB;

impl Currency for RUB {
    open spec fn spec_code() -> Seq<char> {
        "RUB"@
    }

    open spec fn spec_minor_units() -> u32 {
        2
    }

    open spec fn spec_symbol() -> Seq<char> {
        "₽"@
    }

    open spec fn spec_name() -> Seq<char> {
        "Russian Ruble"@
    }

    open spec fn spec_numeric_code() -> u32 {
        643
    }

    fn code(&self) -> (r: &'static str) {
        "RUB"
    }

    fn minor_units(&self) -> (r: u32) {
        2
    }

    fn symbol(&self) -> (r: &'static str) {
        "₽"
    }

    fn name(&self) -> (r: &'static str) {
        "Russian Ruble"
    }

    fn numeric_code(&self) -> (r: u32) {
        643
    }
}

/// Rwanda Franc
#[derive(Clone, Copy, Debug, PartialEq, Eq, Structural, PartialOrd)]
pub struct RWF;

impl Currency for RWF {
    open spec fn spec_code() -> Seq<char> {
        "RWF"@
    }

    open spec fn spec_minor_units() -> u32 {
        0
    }

    open spec fn spec_symbol() -> Seq<char> {
        ""@
    }

    open spec fn spec_name() -> Seq<char> {
        "Rwanda Franc"@
    }

    open spec fn spec_numeric_code() -> u32 {
        646
    }

    fn code(&self) -> (r: &'static str) {
        "RWF"
    }

    fn minor_units(&self) -> (r: u32) {
        0
    }

    fn symbol(&self) -> (r: &'static str) {
        ""
    }

    fn name(&self) -> (r: &'static str) {
        "Rwanda Franc"
    }

    fn numeric_code(&self) -> (r: u32) {
        646
    }
}

/// Saint Helena Pound
#[derive(Clone, Copy, Debug, PartialEq, Eq, Structural, PartialOrd)]
pub struct SHP;

impl Currency for SHP {
    open spec fn spec_code() -> Seq<char> {
        "SHP"@
    }

    open spec fn spec_minor_units() -> u32 {
        2
    }

    open spec fn spec_symbol() -> Seq<char> {
        "£"@
    }

    open spec fn spec_name() -> Seq<char> {
        "Saint Helena Pound"@
    }

    open spec fn spec_numeric_code() -> u32 {
        654
    }

    fn code(&self) -> (r: &'static str) {
        "SHP"
    }

    fn minor_units(&self) -> (r: u32) {
        2
    }

    fn symbol(&self) -> (r: &'static str) {
        "£"
    }

    fn name(&self) -> (r: &'static str) {
        "Saint Helena Pound"
    }

    fn numeric_code(&self) -> (r: u32) {
        654
    }
}

/// Tala
#[derive(Clone, Copy, Debug, PartialEq, Eq, Structural, PartialOrd)]
pub struct WST;

impl Currency for WST {
    open spec fn spec_code() -> Seq<char> {
        "WST"@
    }

    open spec fn spec_minor_units() -> u32 {
        2
    }

    open spec fn spec_symbol() -> Seq<char> {
        ""@
    }

    open spec fn spec_name() -> Seq<char> {
        "Tala"@
    }

    open spec fn spec_numeric_code() -> u32 {
        882
    }

    fn code(&self) -> (r: &'static str) {
        "WST"
    }

    fn minor_units(&self) -> (r: u32) {
        2
    }

    fn symbol(&self) -> (r: &'static str) {
        ""
    }

    fn name(&self) -> (r: &'static str) {
        "Tala"
    }

    fn numeric_code(&self) -> (r: u32) {
        882
    }
}

/// Dobra
#[derive(Clone, Copy, Debug, PartialEq, Eq, Structural, PartialOrd)]
pub struct STN;

impl Currency for STN {
    open spec fn spec_code() -> Seq<char> {
        "STN"@
    }

    open spec fn spec_minor_units() -> u32 {
        2
    }

    open spec fn spec_symbol() -> Seq<char> {
        ""@
    }

    open spec fn spec_name() -> Seq<char> {
        "Dobra"@
    }

    open spec fn spec_numeric_code() -> u32 {
        930
    }

    fn code(&self) -> (r: &'static str) {
        "STN"
    }

    fn minor_units(&self) -> (r: u32) {
        2
    }

    fn symbol(&self) -> (r: &'static str) {
        ""
    }

    fn name(&self) -> (r: &'static str) {
        "Dobra"
    }

    fn numeric_code(&self) -> (r: u32) {
        930
    }
}

/// Saudi Riyal
#[derive(Clone, Copy, Debug, PartialEq, Eq, Structural, PartialOrd)]
pub struct SAR;

impl Currency for SAR {
    open spec fn spec_code() -> Seq<char> {
        "SAR"@
    }

    open spec fn spec_minor_units() -> u32 {
        2
    }

    open spec fn spec_symbol() -> Seq<char> {
        "﷼"@
    }

    open spec fn spec_name() -> Seq<char> {
        "Saudi Riyal"@
    }

    open spec fn spec_numeric_code() -> u32 {
        682
    }

    fn code(&self) -> (r: &'static str) {
        "SAR"
    }

    fn minor_units(&self) -> (r: u32) {
        2
    }

    fn symbol(&self) -> (r: &'static str) {
        "﷼"
    }

    fn name(&self) -> (r: &'static str) {
        "Saudi Riyal"
    }

    fn numeric_code(&self) -> (r: u32) {
        682
    }
}

/// Serbian Dinar
#[derive(Clone, Copy, Debug, PartialEq, Eq, Structural, PartialOrd)]
pub struct RSD;

impl Currency for RSD {
    open spec fn spec_code() -> Seq<char> {
        "RSD"@
    }

    open spec fn spec_minor_units() -> u32 {
        2
    }

    open spec fn spec_symbol() -> Seq<char> {
        "Дин."@
    }

    open spec fn spec_name() -> Seq<char> {
        "Serbian Dinar"@
    }

    open spec fn spec_numeric_code() -> u32 {
        941
    }

    fn code(&self) -> (r: &'static str) {
        "RSD"
    }

    fn minor_units(&self) -> (r: u32) {
        2
    }

    fn symbol(&self) -> (r: &'static str) {
        "Дин."
    }

    fn name(&self) -> (r: &'static str) {
        "Serbian Dinar"
    }

    fn numeric_code(&self) -> (r: u32) {
        941
    }
}

/// Seychelles Rupee
#[derive(Clone, Copy, Debug, PartialEq, Eq, Structural, PartialOrd)]
pub struct SCR;

impl Currency for SCR {
    open spec fn spec_code() -> Seq<char> {
        "SCR"@
    }

    open spec fn spec_minor_units() -> u32 {
        2
    }

    open spec fn spec_symbol() -> Seq<char> {
        "₨"@
    }

    open spec fn spec_name() -> Seq<char> {
        "Seychelles Rupee"@
    }

    open spec fn spec_numeric_code() -> u32 {
        690
    }

    fn code(&self) -> (r: &'static str) {
        "SCR"
    }

    fn minor_units(&self) -> (r: u32) {
        2
    }

    fn symbol(&self) -> (r: &'static str) {
        "₨"
    }

    fn name(&self) -> (r: &'static str) {
        "Seychelles Rupee"
    }

    fn numeric_code(&self) -> (r: u32) {
        690
    }
}

/// Leone
#[derive(Clone, Copy, Debug, PartialEq, Eq, Structural, PartialOrd)]
pub struct SLE;

impl Currency for SLE {
    open spec fn spec_code() -> Seq<char> {
        "SLE"@
    }

    open spec fn spec_minor_units() -> u32 {
        2
    }

    open spec fn spec_symbol() -> Seq<char> {
        ""@
    }

    open spec fn spec_name() -> Seq<char> {
        "Leone"@
    }

    open spec fn spec_numeric_code() -> u32 {
        925
    }

    fn code(&self) -> (r: &'static str) {
        "SLE"
    }

    fn minor_units(&self) -> (r: u32) {
        2
    }

    fn symbol(&self) -> (r: &'static str) {
        ""
    }

    fn name(&self) -> (r: &'static str) {
        "Leone"
    }

    fn numeric_code(&self) -> (r: u32) {
        925
    }
}

/// Singapore Dollar
#[derive(Clone, Copy, Debug, PartialEq, Eq, Structural, PartialOrd)]
pub struct SGD;

impl Currency for SGD {
    open spec fn spec_code() -> Seq<char> {
        "SGD"@
    }

    open spec fn spec_minor_units() -> u32 {
        2
    }

    open spec fn spec_symbol() -> Seq<char> {
        "$"@
    }

    open spec fn spec_name() -> Seq<char> {
        "Singapore Dollar"@
    }

    open spec fn spec_numeric_code() -> u32 {
        702
    }

    fn code(&self) -> (r: &'static str) {
        "SGD"
    }

    fn minor_units(&self) -> (r: u32) {
        2
    }

    fn symbol(&self) -> (r: &'static str) {
        "$"
    }

    fn name(&self) -> (r: &'static str) {
        "Singapore Dollar"
    }

    fn numeric_code(&self) -> (r: u32) {
        702
    }
}

/// Sucre
#[derive(Clone, Copy, Debug, PartialEq, Eq, Structural, PartialOrd)]
pub struct XSU;

impl Currency for XSU {
    open spec fn spec_code() -> Seq<char> {
        "XSU"@
    }

    open spec fn spec_minor_units() -> u32 {
        0
    }

    open spec fn spec_symbol() -> Seq<char> {
        ""@
    }

    open spec fn spec_name() -> Seq<char> {
        "Sucre"@
    }

    open spec fn spec_numeric_code() -> u32 {
        994
    }

    fn code(&self) -> (r: &'static str) {
        "XSU"
    }

    fn minor_units(&self) -> (r: u32) {
        0
    }

    fn symbol(&self) -> (r: &'static str) {
        ""
    }

    fn name(&self) -> (r: &'static str) {
        "Sucre"
    }

    fn numeric_code(&self) -> (r: u32) {
        994
    }
}

/// Solomon Islands Dollar
#[derive(Clone, Copy, Debug, PartialEq, Eq, Structural, PartialOrd)]
pub struct SBD;

impl Currency for SBD {
    open spec fn spec_code() -> Seq<char> {
        "SBD"@
    }

    open spec fn spec_minor_units() -> u32 {
        2
    }

    open spec fn spec_symbol() -> Seq<char> {
        "$"@
    }

    open spec fn spec_name() -> Seq<char> {
        "Solomon Islands Dollar"@
    }

    open spec fn spec_numeric_code() -> u32 {
        90
    }

    fn code(&self) -> (r: &'static str) {
        "SBD"
    }

    fn minor_units(&self) -> (r: u32) {
        2
    }

    fn symbol(&self) -> (r: &'static str) {
        "$"
    }

    fn name(&self) -> (r: &'static str) {
        "Solomon Islands Dollar"
    }

    fn numeric_code(&self) -> (r: u32) {
        90
    }
}

/// Somali Shilling
#[derive(Clone, Copy, Debug, PartialEq, Eq, Structural, PartialOrd)]
pub struct SOS;

impl Currency for SOS {
    open spec fn spec_code() -> Seq<char> {
        "SOS"@
    }

    open spec fn spec_minor_units() -> u32 {
        2
    }

    open spec fn spec_symbol() -> Seq<char> {
        "S"@
    }

    open spec fn spec_name() -> Seq<char> {
        "Somali Shilling"@
    }

    open spec fn spec_numeric_code() -> u32 {
        706
    }

    fn code(&self) -> (r: &'static str) {
        "SOS"
    }

    fn minor_units(&self) -> (r: u32) {
        2
    }

    fn symbol(&self) -> (r: &'static str) {
        "S"
    }

    fn name(&self) -> (r: &'static str) {
        "Somali Shilling"
    }

    fn numeric_code(&self) -> (r: u32) {
        706
    }
}

/// South Sudanese Pound
#[derive(Clone, Copy, Debug, PartialEq, Eq, Structural, PartialOrd)]
pub struct SSP;

impl Currency for SSP {
    open spec fn spec_code() -> Seq<char> {
        "SSP"@
    }

    open spec fn spec_minor_units() -> u32 {
        2
    }

    open spec fn spec_symbol() -> Seq<char> {
        ""@
    }

    open spec fn spec_name() -> Seq<char> {
        "South Sudanese Pound"@
    }

    open spec fn spec_numeric_code() -> u32 {
        728
    }

    fn code(&self) -> (r: &'static str) {
        "SSP"
    }

    fn minor_units(&self) -> (r: u32) {
        2
    }

    fn symbol(&self) -> (r: &'static str) {
        ""
    }

    fn name(&self) -> (r: &'static str) {
        "South Sudanese Pound"
    }

    fn numeric_code(&self) -> (r: u32) {
        728
    }
}

/// Sri Lanka Rupee
#[derive(Clone, Copy, Debug, PartialEq, Eq, Structural, PartialOrd)]
pub struct LKR;

impl Currency for LKR {
    open spec fn spec_code() -> Seq<char> {
        "LKR"@
    }

    open spec fn spec_minor_units() -> u32 {
        2
    }

    open spec fn spec_symbol() -> Seq<char> {
        "₨"@
    }

    open spec fn spec_name() -> Seq<char> {
        "Sri Lanka Rupee"@
    }

    open spec fn spec_numeric_code() -> u32 {
        144
    }

    fn code(&self) -> (r: &'static str) {
        "LKR"
    }

    fn minor_units(&self) -> (r: u32) {
        2
    }

    fn symbol(&self) -> (r: &'static str) {
        "₨"
    }

    fn name(&self) -> (r: &'static str) {
        "Sri Lanka Rupee"
    }

    fn numeric_code(&self) -> (r: u32) {
        144
    }
}

/// Sudanese Pound
#[derive(Clone, Copy, Debug, PartialEq, Eq, Structural, PartialOrd)]
pub struct SDG;

impl Currency for SDG {
    open spec fn spec_code() -> Seq<char> {
        "SDG"@
    }

    open spec fn spec_minor_units() -> u32 {
        2
    }

    open spec fn spec_symbol() -> Seq<char> {
        ""@
    }

    open spec fn spec_name() -> Seq<char> {
        "Sudanese Pound"@
    }

    open spec fn spec_numeric_code() -> u32 {
        938
    }

    fn code(&self) -> (r: &'static str) {
        "SDG"
    }

    fn minor_units(&self) -> (r: u32) {
        2
    }

    fn symbol(&self) -> (r: &'static str) {
        ""
    }

    fn name(&self) -> (r: &'static str) {
        "Sudanese Pound"
    }

    fn numeric_code(&self) -> (r: u32) {
        938
    }
}

/// Surinam Dollar
#[derive(Clone, Copy, Debug, PartialEq, Eq, Structural, PartialOrd)]
pub struct SRD;

impl Currency for SRD {
    open spec fn spec_code() -> Seq<char> {
        "SRD"@
    }

    open spec fn spec_minor_units() -> u32 {
        2
    }

    open spec fn spec_symbol() -> Seq<char> {
        "$"@
    }

    open spec fn spec_name() -> Seq<char> {
        "Surinam Dollar"@
    }

    open spec fn spec_numeric_code() -> u32 {
        968
    }

    fn code(&self) -> (r: &'static str) {
        "SRD"
    }

    fn minor_units(&self) -> (r: u32) {
        2
    }

    fn symbol(&self) -> (r: &'static str) {
        "$"
    }

    fn name(&self) -> (r: &'static str) {
        "Surinam Dollar"
    }

    fn numeric_code(&self) -> (r: u32) {
        968
    }
}

/// Swedish Krona
#[derive(Clone, Copy, Debug, PartialEq, Eq, Structural, PartialOrd)]
pub struct SEK;

impl Currency for SEK {
    open spec fn spec_code() -> Seq<char> {
        "SEK"@
    }

    open spec fn spec_minor_units() -> u32 {
        2
    }

    open spec fn spec_symbol() -> Seq<char> {
        "kr"@
    }

    open spec fn spec_name() -> Seq<char> {
        "Swedish Krona"@
    }

    open spec fn spec_numeric_code() -> u32 {
        752
    }

    fn code(&self) -> (r: &'static str) {
        "SEK"
    }

    fn minor_units(&self) -> (r: u32) {
        2
    }

    fn symbol(&self) -> (r: &'static str) {
        "kr"
    }

    fn name(&self) -> (r: &'static str) {
        "Swedish Krona"
    }

    fn numeric_code(&self) -> (r: u32) {
        752
    }
}

/// WIR Euro
#[derive(Clone, Copy, Debug, PartialEq, Eq, Structural, PartialOrd)]
pub struct CHE;

impl Currency for CHE {
    open spec fn spec_code() -> Seq<char> {
        "CHE"@
    }

    open spec fn spec_minor_units() -> u32 {
        2
    }

    open spec fn spec_symbol() -> Seq<char> {
        ""@
    }

    open spec fn spec_name() -> Seq<char> {
        "WIR Euro"@
    }

    open spec fn spec_numeric_code() -> u32 {
        947
    }

    fn code(&self) -> (r: &'static str) {
        "CHE"
    }

    fn minor_units(&self) -> (r: u32) {
        2
    }

    fn symbol(&self) -> (r: &'static str) {
        ""
    }

    fn name(&self) -> (r: &'static str) {
        "WIR Euro"
    }

    fn numeric_code(&self) -> (r: u32) {
        947
    }
}

/// WIR Franc
#[derive(Clone, Copy, Debug, PartialEq, Eq, Structural, PartialOrd)]
pub struct CHW;

impl Currency for CHW {
    open spec fn spec_code() -> Seq<char> {
        "CHW"@
    }

    open spec fn spec_minor_units() -> u32 {
        2
    }

    open spec fn spec_symbol() -> Seq<char> {
        ""@
    }

    open spec fn spec_name() -> Seq<char> {
        "WIR Franc"@
    }

    open spec fn spec_numeric_code() -> u32 {
        948
    }

    fn code(&self) -> (r: &'static str) {
        "CHW"
    }

    fn minor_units(&self) -> (r: u32) {
        2
    }

    fn symbol(&self) -> (r: &'static str) {
        ""
    }

    fn name(&self) -> (r: &'static str) {
        "WIR Franc"
    }

    fn numeric_code(&self) -> (r: u32) {
        948
    }
}

/// Syrian Pound
#[derive(Clone, Copy, Debug, PartialEq, Eq, Structural, PartialOrd)]
pub struct SYP;

impl Currency for SYP {
    open spec fn spec_code() -> Seq<char> {
        "SYP"@
    }

    open spec fn spec_minor_units() -> u32 {
        2
    }

    open spec fn spec_symbol() -> Seq<char> {
        "£"@
    }

    open spec fn spec_name() -> Seq<char> {
        "Syrian Pound"@
    }

    open spec fn spec_numeric_code() -> u32 {
        760
    }

    fn code(&self) -> (r: &'static str) {
        "SYP"
    }

    fn minor_units(&self) -> (r: u32) {
        2
    }

    fn symbol(&self) -> (r: &'static str) {
        "£"
    }

    fn name(&self) -> (r: &'static str) {
        "Syrian Pound"
    }

    fn numeric_code(&self) -> (r: u32) {
        760
    }
}

/// New Taiwan Dollar
#[derive(Clone, Copy, Debug, PartialEq, Eq, Structural, PartialOrd)]
pub struct TWD;

impl Currency for TWD {
    open spec fn spec_code() -> Seq<char> {
        "TWD"@
    }

    open spec fn spec_minor_units() -> u32 {
        2
    }

    open spec fn spec_symbol() -> Seq<char> {
        "NT$"@
    }

    open spec fn spec_name() -> Seq<char> {
        "New Taiwan Dollar"@
    }

    open spec fn spec_numeric_code() -> u32 {
        901
    }

    fn code(&self) -> (r: &'static str) {
        "TWD"
    }

    fn minor_units(&self) -> (r: u32) {
        2
    }

    fn symbol(&self) -> (r: &'static str) {
        "NT$"
    }

    fn name(&self) -> (r: &'static str) {
        "New Taiwan Dollar"
    }

    fn numeric_code(&self) -> (r: u32) {
        901
    }
}

/// Somoni
#[derive(Clone, Copy, Debug, PartialEq, Eq, Structural, PartialOrd)]
pub struct TJS;

impl Currency for TJS {
    open spec fn spec_code() -> Seq<char> {
        "TJS"@
    }

    open spec fn spec_minor_units() -> u32 {
        2
    }

    open spec fn spec_symbol() -> Seq<char> {
        ""@
    }

    open spec fn spec_name() -> Seq<char> {
        "Somoni"@
    }

    open spec fn spec_numeric_code() -> u32 {
        972
    }

    fn code(&self) -> (r: &'static str) {
        "TJS"
    }

    fn minor_units(&self) -> (r: u32) {
        2
    }

    fn symbol(&self) -> (r: &'static str) {
        ""
    }

    fn name(&self) -> (r: &'static str) {
        "Somoni"
    }

    fn numeric_code(&self) -> (r: u32) {
        972
    }
}

/// Tanzanian Shilling
#[derive(Clone, Copy, Debug, PartialEq, Eq, Structural, PartialOrd)]
pub struct TZS;

impl Currency for TZS {
    open spec fn spec_code() -> Seq<char> {
        "TZS"@
    }

    open spec fn spec_minor_units() -> u32 {
        2
    }

    open spec fn spec_symbol() -> Seq<char> {
        ""@
    }

    open spec fn spec_name() -> Seq<char> {
        "Tanzanian Shilling"@
    }

    open spec fn spec_numeric_code() -> u32 {
        834
    }

    fn code(&self) -> (r: &'static str) {
        "TZS"
    }

    fn minor_units(&self) -> (r: u32) {
        2
    }

    fn symbol(&self) -> (r: &'static str) {
        ""
    }

    fn name(&self) -> (r: &'static str) {
        "Tanzanian Shilling"
    }

    fn numeric_code(&self) -> (r: u32) {
        834
    }
}

/// Baht
#[derive(Clone, Copy, Debug, PartialEq, Eq, Structural, PartialOrd)]
pub struct THB;

impl Currency for THB {
    open spec fn spec_code() -> Seq<char> {
        "THB"@
    }

    open spec fn spec_minor_units() -> u32 {
        2
    }

    open spec fn spec_symbol() -> Seq<char> {
        "฿"@
    }

    open spec fn spec_name() -> Seq<char> {
        "Baht"@
    }

    open spec fn spec_numeric_code() -> u32 {
        764
    }

    fn code(&self) -> (r: &'static str) {
        "THB"
    }

    fn minor_units(&self) -> (r: u32) {
        2
    }

    fn symbol(&self) -> (r: &'static str) {
        "฿"
    }

    fn name(&self) -> (r: &'static str) {
        "Baht"
    }

    fn numeric_code(&self) -> (r: u32) {
        764
    }
}

/// Pa’anga
#[derive(Clone, Copy, Debug, PartialEq, Eq, Structural, PartialOrd)]
pub struct TOP;

impl Currency for TOP {
    open spec fn spec_code() -> Seq<char> {
        "TOP"@
    }

    open spec fn spec_minor_units() -> u32 {
        2
    }

    open spec fn spec_symbol() -> Seq<char> {
        ""@
    }

    open spec fn spec_name() -> Seq<char> {
        "Pa’anga"@
    }

    open spec fn spec_numeric_code() -> u32 {
        776
    }

    fn code(&self) -> (r: &'static str) {
        "TOP"
    }

    fn minor_units(&self) -> (r: u32) {
        2
    }

    fn symbol(&self) -> (r: &'static str) {
        ""
    }

    fn name(&self) -> (r: &'static str) {
        "Pa’anga"
    }

    fn numeric_code(&self) -> (r: u32) {
        776
    }
}

/// Trinidad and Tobago Dollar
#[derive(Clone, Copy, Debug, PartialEq, Eq, Structural, PartialOrd)]
pub struct TTD;

impl Currency for TTD {
    open spec fn spec_code() -> Seq<char> {
        "TTD"@
    }

    open spec fn spec_minor_units() -> u32 {
        2
    }

    open spec fn spec_symbol() -> Seq<char> {
        "TT$"@
    }

    open spec fn spec_name() -> Seq<char> {
        "Trinidad and Tobago Dollar"@
    }

    open spec fn spec_numeric_code() -> u32 {
        780
    }

    fn code(&self) -> (r: &'static str) {
        "TTD"
    }

    fn minor_units(&self) -> (r: u32) {
        2
    }

    fn symbol(&self) -> (r: &'static str) {
        "TT$"
    }

    fn name(&self) -> (r: &'static str) {
        "Trinidad and Tobago Dollar"
    }

    fn numeric_code(&self) -> (r: u32) {
        780
    }
}

/// Tunisian Dinar
#[derive(Clone, Copy, Debug, PartialEq, Eq, Structural, PartialOrd)]
pub struct TND;

impl Currency for TND {
    open spec fn spec_code() -> Seq<char> {
        "TND"@
    }

    open spec fn spec_minor_units() -> u32 {
        3
    }

    open spec fn spec_symbol() -> Seq<char> {
        ""@
    }

    open spec fn spec_name() -> Seq<char> {
        "Tunisian Dinar"@
    }

    open spec fn spec_numeric_code() -> u32 {
        788
    }

    fn code(&self) -> (r: &'static str) {
        "TND"
    }

    fn minor_units(&self) -> (r: u32) {
        3
    }

    fn symbol(&self) -> (r: &'static str) {
        ""
    }

    fn name(&self) -> (r: &'static str) {
        "Tunisian Dinar"
    }

    fn numeric_code(&self) -> (r: u32) {
        788
    }
}

/// Turkish Lira
#[derive(Clone, Copy, Debug, PartialEq, Eq, Structural, PartialOrd)]
pub struct TRY;

impl Currency for TRY {
    open spec fn spec_code() -> Seq<char> {
        "TRY"@
    }

    open spec fn spec_minor_units() -> u32 {
        2
    }

    open spec fn spec_symbol() -> Seq<char> {
        "₺"@
    }

    open spec fn spec_name() -> Seq<char> {
        "Turkish Lira"@
    }

    open spec fn spec_numeric_code() -> u32 {
        949
    }

    fn code(&self) -> (r: &'static str) {
        "TRY"
    }

    fn minor_units(&self) -> (r: u32) {
        2
    }

    fn symbol(&self) -> (r: &'static str) {
        "₺"
    }

    fn name(&self) -> (r: &'static str) {
        "Turkish Lira"
    }

    fn numeric_code(&self) -> (r: u32) {
        949
    }
}

/// Turkmenistan New Manat
#[derive(Clone, Copy, Debug, PartialEq, Eq, Structural, PartialOrd)]
pub struct TMT;

impl Currency for TMT {
    open spec fn spec_code() -> Seq<char> {
        "TMT"@
    }

    open spec fn spec_minor_units() -> u32 {
        2
    }

    open spec fn spec_symbol() -> Seq<char> {
        ""@
    }

    open spec fn spec_name() -> Seq<char> {
        "Turkmenistan New Manat"@
    }

    open spec fn spec_numeric_code() -> u32 {
        934
    }

    fn code(&self) -> (r: &'static str) {
        "TMT"
    }

    fn minor_units(&self) -> (r: u32) {
        2
    }

    fn symbol(&self) -> (r: &'static str) {
        ""
    }

    fn name(&self) -> (r: &'static str) {
        "Turkmenistan New Manat"
    }

    fn numeric_code(&self) -> (r: u32) {
        934
    }
}

/// Uganda Shilling
#[derive(Clone, Copy, Debug, PartialEq, Eq, Structural, PartialOrd)]
pub struct UGX;

impl Currency for UGX {
    open spec fn spec_code() -> Seq<char> {
        "UGX"@
    }

    open spec fn spec_minor_units() -> u32 {
        0
    }

    open spec fn spec_symbol() -> Seq<char> {
        ""@
    }

    open spec fn spec_name() -> Seq<char> {
        "Uganda Shilling"@
    }

    open spec fn spec_numeric_code() -> u32 {
        800
    }

    fn code(&self) -> (r: &'static str) {
        "UGX"
    }

    fn minor_units(&self) -> (r: u32) {
        0
    }

    fn symbol(&self) -> (r: &'static str) {
        ""
    }

    fn name(&self) -> (r: &'static str) {
        "Uganda Shilling"
    }

    fn numeric_code(&self) -> (r: u32) {
        800
    }
}

/// Hryvnia
#[derive(Clone, Copy, Debug, PartialEq, Eq, Structural, PartialOrd)]
pub struct UAH;

impl Currency for UAH {
    open spec fn spec_code() -> Seq<char> {
        "UAH"@
    }

    open spec fn spec_minor_units() -> u32 {
        2
    }

    open spec fn spec_symbol() -> Seq<char> {
        "₴"@
    }

    open spec fn spec_name() -> Seq<char> {
        "Hryvnia"@
    }

    open spec fn spec_numeric_code() -> u32 {
        980
    }

    fn code(&self) -> (r: &'static str) {
        "UAH"
    }

    fn minor_units(&self) -> (r: u32) {
        2
    }

    fn symbol(&self) -> (r: &'static str) {
        "₴"
    }

    fn name(&self) -> (r: &'static str) {
        "Hryvnia"
    }

    fn numeric_code(&self) -> (r: u32) {
        980
    }
}

/// UAE Dirham
#[derive(Clone, Copy, Debug, PartialEq, Eq, Structural, PartialOrd)]
pub struct AED;

impl Currency for AED {
    open spec fn spec_code() -> Seq<char> {
        "AED"@
    }

    open spec fn spec_minor_units() -> u32 {
        2
    }

    open spec fn spec_symbol() -> Seq<char> {
        ""@
    }

    open spec fn spec_name() -> Seq<char> {
        "UAE Dirham"@
    }

    open spec fn spec_numeric_code() -> u32 {
        784
    }

    fn code(&self) -> (r: &'static str) {
        "AED"
    }

    fn minor_units(&self) -> (r: u32) {
        2
    }

    fn symbol(&self) -> (r: &'static str) {
        ""
    }

    fn name(&self) -> (r: &'static str) {
        "UAE Dirham"
    }

    fn numeric_code(&self) -> (r: u32) {
        784
    }
}

/// US Dollar (Next day)
#[derive(Clone, Copy, Debug, PartialEq, Eq, Structural, PartialOrd)]
pub struct USN;

impl Currency for USN {
    open spec fn spec_code() -> Seq<char> {
        "USN"@
    }

    open spec fn spec_minor_units() -> u32 {
        2
    }

    open spec fn spec_symbol() -> Seq<char> {
        ""@
    }

    open spec fn spec_name() -> Seq<char> {
        "US Dollar (Next day)"@
    }

    open spec fn spec_numeric_code() -> u32 {
        997
    }

    fn code(&self) -> (r: &'static str) {
        "USN"
    }

    fn minor_units(&self) -> (r: u32) {
        2
    }

    fn symbol(&self) -> (r: &'static str) {
        ""
    }

    fn name(&self) -> (r: &'static str) {
        "US Dollar (Next day)"
    }

    fn numeric_code(&self) -> (r: u32) {
        997
    }
}

/// Peso Uruguayo
#[derive(Clone, Copy, Debug, PartialEq, Eq, Structural, PartialOrd)]
pub struct UYU;

impl Currency for UYU {
    open spec fn spec_code() -> Seq<char> {
        "UYU"@
    }

    open spec fn spec_minor_units() -> u32 {
        2
    }

    open spec fn spec_symbol() -> Seq<char> {
        "$U"@
    }

    open spec fn spec_name() -> Seq<char> {
        "Peso Uruguayo"@
    }

    open spec fn spec_numeric_code() -> u32 {
        858
    }

    fn code(&self) -> (r: &'static str) {
        "UYU"
    }

    fn minor_units(&self) -> (r: u32) {
        2
    }

    fn symbol(&self) -> (r: &'static str) {
        "$U"
    }

    fn name(&self) -> (r: &'static str) {
        "Peso Uruguayo"
    }

    fn numeric_code(&self) -> (r: u32) {
        858
    }
}

/// Uruguay Peso en Unidades Indexadas (UI)
#[derive(Clone, Copy, Debug, PartialEq, Eq, Structural, PartialOrd)]
pub struct UYI;

impl Currency for UYI {
    open spec fn spec_code() -> Seq<char> {
        "UYI"@
    }

    open spec fn spec_minor_units() -> u32 {
        0
    }

    open spec fn spec_symbol() -> Seq<char> {
        ""@
    }

    open spec fn spec_name() -> Seq<char> {
        "Uruguay Peso en Unidades Indexadas (UI)"@
    }

    open spec fn spec_numeric_code() -> u32 {
        940
    }

    fn code(&self) -> (r: &'static str) {
        "UYI"
    }

    fn minor_units(&self) -> (r: u32) {
        0
    }

    fn symbol(&self) -> (r: &'static str) {
        ""
    }

    fn name(&self) -> (r: &'static str) {
        "Uruguay Peso en Unidades Indexadas (UI)"
    }

    fn numeric_code(&self) -> (r: u32) {
        940
    }
}

/// Unidad Previsional
#[derive(Clone, Copy, Debug, PartialEq, Eq, Structural, PartialOrd)]
pub struct UYW;

impl Currency for UYW {
    open spec fn spec_code() -> Seq<char> {
        "UYW"@
    }

    open spec fn spec_minor_units() -> u32 {
        4
    }

    open spec fn spec_symbol() -> Seq<char> {
        ""@
    }

    open spec fn spec_name() -> Seq<char> {
        "Unidad Previsional"@
    }

    open spec fn spec_numeric_code() -> u32 {
        927
    }

    fn code(&self) -> (r: &'static str) {
        "UYW"
    }

    fn minor_units(&self) -> (r: u32) {
        4
    }

    fn symbol(&self) -> (r: &'static str) {
        ""
    }

    fn name(&self) -> (r: &'static str) {
        "Unidad Previsional"
    }

    fn numeric_code(&self) -> (r: u32) {
        927
    }
}

/// Uzbekistan Sum
#[derive(Clone, Copy, Debug, PartialEq, Eq, Structural, PartialOrd)]
pub struct UZS;

impl Currency for UZS {
    open spec fn spec_code() -> Seq<char> {
        "UZS"@
    }

    open spec fn spec_minor_units() -> u32 {
        2
    }

    open spec fn spec_symbol() -> Seq<char> {
        "лв"@
    }

    open spec fn spec_name() -> Seq<char> {
        "Uzbekistan Sum"@
    }

    open spec fn spec_numeric_code() -> u32 {
        860
    }

    fn code(&self) -> (r: &'static str) {
        "UZS"
    }

    fn minor_units(&self) -> (r: u32) {
        2
    }

    fn symbol(&self) -> (r: &'static str) {
        "лв"
    }

    fn name(&self) -> (r: &'static str) {
        "Uzbekistan Sum"
    }

    fn numeric_code(&self) -> (r: u32) {
        860
    }
}

/// Vatu
#[derive(Clone, Copy, Debug, PartialEq, Eq, Structural, PartialOrd)]
pub struct VUV;

impl Currency for VUV {
    open spec fn spec_code() -> Seq<char> {
        "VUV"@
    }

    open spec fn spec_minor_units() -> u32 {
        0
    }

    open spec fn spec_symbol() -> Seq<char> {
        ""@
    }

    open spec fn spec_name() -> Seq<char> {
        "Vatu"@
    }

    open spec fn spec_numeric_code() -> u32 {
        548
    }

    fn code(&self) -> (r: &'static str) {
        "VUV"
    }

    fn minor_units(&self) -> (r: u32) {
        0
    }

    fn symbol(&self) -> (r: &'static str) {
        ""
    }

    fn name(&self) -> (r: &'static str) {
        "Vatu"
    }

    fn numeric_code(&self) -> (r: u32) {
        548
    }
}

/// Bolívar Soberano
#[derive(Clone, Copy, Debug, PartialEq, Eq, Structural, PartialOrd)]
pub struct VES;

impl Currency for VES {
    open spec fn spec_code() -> Seq<char> {
        "VES"@
    }

    open spec fn spec_minor_units() -> u32 {
        2
    }

    open spec fn spec_symbol() -> Seq<char> {
        ""@
    }

    open spec fn spec_name() -> Seq<char> {
        "Bolívar Soberano"@
    }

    open spec fn spec_numeric_code() -> u32 {
        928
    }

    fn code(&self) -> (r: &'static str) {
        "VES"
    }

    fn minor_units(&self) -> (r: u32) {
        2
    }

    fn symbol(&self) -> (r: &'static str) {
        ""
    }

    fn name(&self) -> (r: &'static str) {
        "Bolívar Soberano"
    }

    fn numeric_code(&self) -> (r: u32) {
        928
    }
}

/// Bolívar Soberano
#[derive(Clone, Copy, Debug, PartialEq, Eq, Structural, PartialOrd)]
pub struct VED;

impl Currency for VED {
    open spec fn spec_code() -> Seq<char> {
        "VED"@
    }

    open spec fn spec_minor_units() -> u32 {
        2
    }

    open spec fn spec_symbol() -> Seq<char> {
        ""@
    }

    open spec fn spec_name() -> Seq<char> {
        "Bolívar Soberano"@
    }

    open spec fn spec_numeric_code() -> u32 {
        926
    }

    fn code(&self) -> (r: &'static str) {
        "VED"
    }

    fn minor_units(&self) -> (r: u32) {
        2
    }

    fn symbol(&self) -> (r: &'static str) {
        ""
    }

    fn name(&self) -> (r: &'static str) {
        "Bolívar Soberano"
    }

    fn numeric_code(&self) -> (r: u32) {
        926
    }
}

/// Dong
#[derive(Clone, Copy, Debug, PartialEq, Eq, Structural, PartialOrd)]
pub struct VND;

impl Currency for VND {
    open spec fn spec_code() -> Seq<char> {
        "VND"@
    }

    open spec fn spec_minor_units() -> u32 {
        0
    }

    open spec fn spec_symbol() -> Seq<char> {
        "₫"@
    }

    open spec fn spec_name() -> Seq<char> {
        "Dong"@
    }

    open spec fn spec_numeric_code() -> u32 {
        704
    }

    fn code(&self) -> (r: &'static str) {
        "VND"
    }

    fn minor_units(&self) -> (r: u32) {
        0
    }

    fn symbol(&self) -> (r: &'static str) {
        "₫"
    }

    fn name(&self) -> (r: &'static str) {
        "Dong"
    }

    fn numeric_code(&self) -> (r: u32) {
        704
    }
}

/// Yemeni Rial
#[derive(Clone, Copy, Debug, PartialEq, Eq, Structural, PartialOrd)]
pub struct YER;

impl Currency for YER {
    open spec fn spec_code() -> Seq<char> {
        "YER"@
    }

    open spec fn spec_minor_units() -> u32 {
        2
    }

    open spec fn spec_symbol() -> Seq<char> {
        "﷼"@
    }

    open spec fn spec_name() -> Seq<char> {
        "Yemeni Rial"@
    }

    open spec fn spec_numeric_code() -> u32 {
        886
    }

    fn code(&self) -> (r: &'static str) {
        "YER"
    }

    fn minor_units(&self) -> (r: u32) {
        2
    }

    fn symbol(&self) -> (r: &'static str) {
        "﷼"
    }

    fn name(&self) -> (r: &'static str) {
        "Yemeni Rial"
    }

    fn numeric_code(&self) -> (r: u32) {
        886
    }
}

/// Zambian Kwacha
#[derive(Clone, Copy, Debug, PartialEq, Eq, Structural, PartialOrd)]
pub struct ZMW;

impl Currency for ZMW {
    open spec fn spec_code() -> Seq<char> {
        "ZMW"@
    }

    open spec fn spec_minor_units() -> u32 {
        2
    }

    open spec fn spec_symbol() -> Seq<char> {
        ""@
    }

    open spec fn spec_name() -> Seq<char> {
        "Zambian Kwacha"@
    }

    open spec fn spec_numeric_code() -> u32 {
        967
    }

    fn code(&self) -> (r: &'static str) {
        "ZMW"
    }

    fn minor_units(&self) -> (r: u32) {
        2
    }

    fn symbol(&self) -> (r: &'static str) {
        ""
    }

    fn name(&self) -> (r: &'static str) {
        "Zambian Kwacha"
    }

    fn numeric_code(&self) -> (r: u32) {
        967
    }
}

/// Zimbabwe Dollar
#[derive(Clone, Copy, Debug, PartialEq, Eq, Structural, PartialOrd)]
pub struct ZWL;

impl Currency for ZWL {
    open spec fn spec_code() -> Seq<char> {
        "ZWL"@
    }

    open spec fn spec_minor_units() -> u32 {
        2
    }

    open spec fn spec_symbol() -> Seq<char> {
        ""@
    }

    open spec fn spec_name() -> Seq<char> {
        "Zimbabwe Dollar"@
    }

    open spec fn spec_numeric_code() -> u32 {
        932
    }

    fn code(&self) -> (r: &'static str) {
        "ZWL"
    }

    fn minor_units(&self) -> (r: u32) {
        2
    }

    fn symbol(&self) -> (r: &'static str) {
        ""
    }

    fn name(&self) -> (r: &'static str) {
        "Zimbabwe Dollar"
    }

    fn numeric_code(&self) -> (r: u32) {
        932
    }
}

/// Zimbabwe Gold
#[derive(Clone, Copy, Debug, PartialEq, Eq, Structural, PartialOrd)]
pub struct ZWG;

impl Currency for ZWG {
    open spec fn spec_code() -> Seq<char> {
        "ZWG"@
    }

    open spec fn spec_minor_units() -> u32 {
        2
    }

    open spec fn spec_symbol() -> Seq<char> {
        ""@
    }

    open spec fn spec_name() -> Seq<char> {
        "Zimbabwe Gold"@
    }

    open spec fn spec_numeric_code() -> u32 {
        924
    }

    fn code(&self) -> (r: &'static str) {
        "ZWG"
    }

    fn minor_units(&self) -> (r: u32) {
        2
    }

    fn symbol(&self) -> (r: &'static str) {
        ""
    }

    fn name(&self) -> (r: &'static str) {
        "Zimbabwe Gold"
    }

    fn numeric_code(&self) -> (r: u32) {
        924
    }
}

/// Bond Markets Unit European Composite Unit (EURCO)
#[derive(Clone, Copy, Debug, PartialEq, Eq, Structural, PartialOrd)]
pub struct XBA;

impl Currency for XBA {
    open spec fn spec_code() -> Seq<char> {
        "XBA"@
    }

    open spec fn spec_minor_units() -> u32 {
        0
    }

    open spec fn spec_symbol() -> Seq<char> {
        ""@
    }

    open spec fn spec_name() -> Seq<char> {
        "Bond Markets Unit European Composite Unit (EURCO)"@
    }

    open spec fn spec_numeric_code() -> u32 {
        955
    }

    fn code(&self) -> (r: &'static str) {
        "XBA"
    }

    fn minor_units(&self) -> (r: u32) {
        0
    }

    fn symbol(&self) -> (r: &'static str) {
        ""
    }

    fn name(&self) -> (r: &'static str) {
        "Bond Markets Unit European Composite Unit (EURCO)"
    }

    fn numeric_code(&self) -> (r: u32) {
        955
    }
}

/// Bond Markets Unit European Monetary Unit (E.M.U.-6)
#[derive(Clone, Copy, Debug, PartialEq, Eq, Structural, PartialOrd)]
pub struct XBB;

impl Currency for XBB {
    open spec fn spec_code() -> Seq<char> {
        "XBB"@
    }

    open spec fn spec_minor_units() -> u32 {
        0
    }

    open spec fn spec_symbol() -> Seq<char> {
        ""@
    }

    open spec fn spec_name() -> Seq<char> {
        "Bond Markets Unit European Monetary Unit (E.M.U.-6)"@
    }

    open spec fn spec_numeric_code() -> u32 {
        956
    }

    fn code(&self) -> (r: &'static str) {
        "XBB"
    }

    fn minor_units(&self) -> (r: u32) {
        0
    }

    fn symbol(&self) -> (r: &'static str) {
        ""
    }

    fn name(&self) -> (r: &'static str) {
        "Bond Markets Unit European Monetary Unit (E.M.U.-6)"
    }

    fn numeric_code(&self) -> (r: u32) {
        956
    }
}

/// Bond Markets Unit European Unit of Account 9 (E.U.A.-9)
#[derive(Clone, Copy, Debug, PartialEq, Eq, Structural, PartialOrd)]
pub struct XBC;

impl Currency for XBC {
    open spec fn spec_code() -> Seq<char> {
        "XBC"@
    }

    open spec fn spec_minor_units() -> u32 {
        0
    }

    open spec fn spec_symbol() -> Seq<char> {
        ""@
    }

    open spec fn spec_name() -> Seq<char> {
        "Bond Markets Unit European Unit of Account 9 (E.U.A.-9)"@
    }

    open spec fn spec_numeric_code() -> u32 {
        957
    }

    fn code(&self) -> (r: &'static str) {
        "XBC"
    }

    fn minor_units(&self) -> (r: u32) {
        0
    }

    fn symbol(&self) -> (r: &'static str) {
        ""
    }

    fn name(&self) -> (r: &'static str) {
        "Bond Markets Unit European Unit of Account 9 (E.U.A.-9)"
    }

    fn numeric_code(&self) -> (r: u32) {
        957
    }
}

/// Bond Markets Unit European Unit of Account 17 (E.U.A.-17)
#[derive(Clone, Copy, Debug, PartialEq, Eq, Structural, PartialOrd)]
pub struct XBD;

impl Currency for XBD {
    open spec fn spec_code() -> Seq<char> {
        "XBD"@
    }

    open spec fn spec_minor_units() -> u32 {
        0
    }

    open spec fn spec_symbol() -> Seq<char> {
        ""@
    }

    open spec fn spec_name() -> Seq<char> {
        "Bond Markets Unit European Unit of Account 17 (E.U.A.-17)"@
    }

    open spec fn spec_numeric_code() -> u32 {
        958
    }

    fn code(&self) -> (r: &'static str) {
        "XBD"
    }

    fn minor_units(&self) -> (r: u32) {
        0
    }

    fn symbol(&self) -> (r: &'static str) {
        ""
    }

    fn name(&self) -> (r: &'static str) {
        "Bond Markets Unit European Unit of Account 17 (E.U.A.-17)"
    }

    fn numeric_code(&self) -> (r: u32) {
        958
    }
}

/// Codes specifically reserved for testing purposes
#[derive(Clone, Copy, Debug, PartialEq, Eq, Structural, PartialOrd)]
pub struct XTS;

impl Currency for XTS {
    open spec fn spec_code() -> Seq<char> {
        "XTS"@
    }

    open spec fn spec_minor_units() -> u32 {
        0
    }

    open spec fn spec_symbol() -> Seq<char> {
        ""@
    }

    open spec fn spec_name() -> Seq<char> {
        "Codes specifically reserved for testing purposes"@
    }

    open spec fn spec_numeric_code() -> u32 {
        963
    }

    fn code(&self) -> (r: &'static str) {
        "XTS"
    }

    fn minor_units(&self) -> (r: u32) {
        0
    }

    fn symbol(&self) -> (r: &'static str) {
        ""
    }

    fn name(&self) -> (r: &'static str) {
        "Codes specifically reserved for testing purposes"
    }

    fn numeric_code(&self) -> (r: u32) {
        963
    }
}

/// The codes assigned for transactions where no currency is involved
#[derive(Clone, Copy, Debug, PartialEq, Eq, Structural, PartialOrd)]
pub struct XXX;

impl Currency for XXX {
    open spec fn spec_code() -> Seq<char> {
        "XXX"@
    }

    open spec fn spec_minor_units() -> u32 {
        0
    }

    open spec fn spec_symbol() -> Seq<char> {
        ""@
    }

    open spec fn spec_name() -> Seq<char> {
        "The codes assigned for transactions where no currency is involved"@
    }

    open spec fn spec_numeric_code() -> u32 {
        999
    }

    fn code(&self) -> (r: &'static str) {
        "XXX"
    }

    fn minor_units(&self) -> (r: u32) {
        0
    }

    fn symbol(&self) -> (r: &'static str) {
        ""
    }

    fn name(&self) -> (r: &'static str) {
        "The codes assigned for transactions where no currency is involved"
    }

    fn numeric_code(&self) -> (r: u32) {
        999
    }
}

/// Gold
#[derive(Clone, Copy, Debug, PartialEq, Eq, Structural, PartialOrd)]
pub struct XAU;

impl Currency for XAU {
    open spec fn spec_code() -> Seq<char> {
        "XAU"@
    }

    open spec fn spec_minor_units() -> u32 {
        0
    }

    open spec fn spec_symbol() -> Seq<char> {
        ""@
    }

    open spec fn spec_name() -> Seq<char> {
        "Gold"@
    }

    open spec fn spec_numeric_code() -> u32 {
        959
    }

    fn code(&self) -> (r: &'static str) {
        "XAU"
    }

    fn minor_units(&self) -> (r: u32) {
        0
    }

    fn symbol(&self) -> (r: &'static str) {
        ""
    }

    fn name(&self) -> (r: &'static str) {
        "Gold"
    }

    fn numeric_code(&self) -> (r: u32) {
        959
    }
}

/// Palladium
#[derive(Clone, Copy, Debug, PartialEq, Eq, Structural, PartialOrd)]
pub struct XPD;

impl Currency for XPD {
    open spec fn spec_code() -> Seq<char> {
        "XPD"@
    }

    open spec fn spec_minor_units() -> u32 {
        0
    }

    open spec fn spec_symbol() -> Seq<char> {
        ""@
    }

    open spec fn spec_name() -> Seq<char> {
        "Palladium"@
    }

    open spec fn spec_numeric_code() -> u32 {
        964
    }

    fn code(&self) -> (r: &'static str) {
        "XPD"
    }

    fn minor_units(&self) -> (r: u32) {
        0
    }

    fn symbol(&self) -> (r: &'static str) {
        ""
    }

    fn name(&self) -> (r: &'static str) {
        "Palladium"
    }

    fn numeric_code(&self) -> (r: u32) {
        964
    }
}

/// Platinum
#[derive(Clone, Copy, Debug, PartialEq, Eq, Structural, PartialOrd)]
pub struct XPT;

impl Currency for XPT {
    open spec fn spec_code() -> Seq<char> {
        "XPT"@
    }

    open spec fn spec_minor_units() -> u32 {
        0
    }

    open spec fn spec_symbol() -> Seq<char> {
        ""@
    }

    open spec fn spec_name() -> Seq<char> {
        "Platinum"@
    }

    open spec fn spec_numeric_code() -> u32 {
        962
    }

    fn code(&self) -> (r: &'static str) {
        "XPT"
    }

    fn minor_units(&self) -> (r: u32) {
        0
    }

    fn symbol(&self) -> (r: &'static str) {
        ""
    }

    fn name(&self) -> (r: &'static str) {
        "Platinum"
    }

    fn numeric_code(&self) -> (r: u32) {
        962
    }
}

/// Silver
#[derive(Clone, Copy, Debug, PartialEq, Eq, Structural, PartialOrd)]
pub struct XAG;

impl Currency for XAG {
    open spec fn spec_code() -> Seq<char> {
        "XAG"@
    }

    open spec fn spec_minor_units() -> u32 {
        0
    }

    open spec fn spec_symbol() -> Seq<char> {
        ""@
    }

    open spec fn spec_name() -> Seq<char> {
        "Silver"@
    }

    open spec fn spec_numeric_code() -> u32 {
        961
    }

    fn code(&self) -> (r: &'static str) {
        "XAG"
    }

    fn minor_units(&self) -> (r: u32) {
        0
    }

    fn symbol(&self) -> (r: &'static str) {
        ""
    }

    fn name(&self) -> (r: &'static str) {
        "Silver"
    }

    fn numeric_code(&self) -> (r: u32) {
        961
    }
}

} // verus!
