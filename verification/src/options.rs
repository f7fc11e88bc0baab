//! The XPath that finds an option of a dropdown of the listing forms by its
//! label, in Portuguese or in any of the other wordings the marketplace uses.
use vstd::prelude::*;
use crate::text::str_eq;

verus! {

/// The other wordings under which the option labelled `t` may appear.
pub open spec fn option_synonyms(t: Seq<char>) -> Seq<Seq<char>> {
    if t == "Casa"@ {
        seq!["House"@]
    } else if t == "Apartamento"@ {
        seq!["Apartment"@, "Condo"@]
    } else if t == "Casa geminada"@ {
        seq!["Townhouse"@]
    } else if t == "À venda"@ {
        seq!["sale"@, "Venda"@, "For sale"@]
    } else if t == "Aluguel"@ {
        seq!["rent"@, "Locação"@, "Aluguel"@, "For rent"@]
    } else if t == "Carro/picape"@ {
        seq!["Car/Truck"@, "Car or pickup"@, "Carro"@, "Picape"@, "Carro/Caminhão"@]
    } else if t == "Motocicleta"@ {
        seq!["Motorcycle"@]
    } else if t == "Veículos para esportes"@ {
        seq!["Powersport"@, "Powersports"@]
    } else if t == "Trailer"@ {
        seq!["Trailer"@]
    } else if t == "Reboque"@ {
        seq!["Utility trailer"@, "reboque"@]
    } else if t == "Barco"@ {
        seq!["Boat"@]
    } else if t == "Comercial/industrial"@ {
        seq!["Commercial"@, "Industrial"@]
    } else if t == "Excelente"@ {
        seq!["Like new"@, "excelente"@]
    } else if t == "Muito bom"@ {
        seq!["Very good"@, "muito bom"@]
    } else if t == "Bom"@ {
        seq!["Good"@, "bom"@]
    } else if t == "Razoável"@ {
        seq!["Fair"@, "razoável"@]
    } else if t == "Ruim"@ {
        seq!["Poor"@, "ruim"@]
    } else if t == "Gasolina"@ {
        seq!["Gas"@, "Gasoline"@]
    } else if t == "Diesel"@ {
        seq!["Diesel"@]
    } else if t == "Híbrido"@ {
        seq!["Hybrid"@]
    } else if t == "Híbrido plug-in"@ {
        seq!["Plug-in hybrid"@]
    } else if t == "Elétrico"@ {
        seq!["Electric"@]
    } else if t == "Flex"@ {
        seq!["Flex"@]
    } else if t == "Cupê"@ {
        seq!["Coupe"@]
    } else if t == "Sedã"@ {
        seq!["Sedan"@]
    } else if t == "Hatch"@ {
        seq!["Hatchback"@]
    } else if t == "SUV"@ {
        seq!["SUV"@]
    } else if t == "Conversível"@ {
        seq!["Convertible"@]
    } else if t == "Station wagon"@ {
        seq!["Wagon"@, "Station"@]
    } else if t == "Minivan"@ {
        seq!["Minivan"@]
    } else if t == "Carro compacto"@ {
        seq!["Compact"@, "Compact car"@]
    } else if t == "Outro"@ {
        seq!["Other"@]
    } else {
        seq![]
    }
}

/// The texts an option labelled `t` is searched by: the label itself, then its
/// other wordings.
pub open spec fn option_terms(t: Seq<char>) -> Seq<Seq<char>> {
    seq![t] + option_synonyms(t)
}

/// The XPath test that an element's text contains `t`.
pub open spec fn contains_test(t: Seq<char>) -> Seq<char> {
    "contains(., '"@ + t + "')"@
}

/// The tests of `ts`, in order, joined by `or`.
pub open spec fn or_tests(ts: Seq<Seq<char>>) -> Seq<char>
    decreases ts.len(),
{
    if ts.len() == 0 {
        Seq::empty()
    } else if ts.len() == 1 {
        contains_test(ts[0])
    } else {
        or_tests(ts.drop_last()) + " or "@ + contains_test(ts.last())
    }
}

/// The XPath of an element with role `option` whose text contains any of the
/// search texts of `t`.
pub open spec fn option_xpath(t: Seq<char>) -> Seq<char> {
    "//*[@role='option']["@ + or_tests(option_terms(t)) + "]"@
}

/// The other wordings of the option labelled `text`.
pub fn option_synonyms_of(text: &str) -> (r: Vec<String>)
    ensures
        r.deep_view() == option_synonyms(text@),
{
    if str_eq(text, "Casa") {
        return vec!["House".to_owned()];
    }
    if str_eq(text, "Apartamento") {
        return vec!["Apartment".to_owned(), "Condo".to_owned()];
    }
    if str_eq(text, "Casa geminada") {
        return vec!["Townhouse".to_owned()];
    }
    if str_eq(text, "À venda") {
        return vec!["sale".to_owned(), "Venda".to_owned(), "For sale".to_owned()];
    }
    if str_eq(text, "Aluguel") {
        return vec!["rent".to_owned(), "Locação".to_owned(), "Aluguel".to_owned(), "For rent".to_owned()];
    }
    if str_eq(text, "Carro/picape") {
        return vec!["Car/Truck".to_owned(), "Car or pickup".to_owned(), "Carro".to_owned(), "Picape".to_owned(), "Carro/Caminhão".to_owned()];
    }
    if str_eq(text, "Motocicleta") {
        return vec!["Motorcycle".to_owned()];
    }
    if str_eq(text, "Veículos para esportes") {
        return vec!["Powersport".to_owned(), "Powersports".to_owned()];
    }
    if str_eq(text, "Trailer") {
        return vec!["Trailer".to_owned()];
    }
    if str_eq(text, "Reboque") {
        return vec!["Utility trailer".to_owned(), "reboque".to_owned()];
    }
    if str_eq(text, "Barco") {
        return vec!["Boat".to_owned()];
    }
    if str_eq(text, "Comercial/industrial") {
        return vec!["Commercial".to_owned(), "Industrial".to_owned()];
    }
    if str_eq(text, "Excelente") {
        return vec!["Like new".to_owned(), "excelente".to_owned()];
    }
    if str_eq(text, "Muito bom") {
        return vec!["Very good".to_owned(), "muito bom".to_owned()];
    }
    if str_eq(text, "Bom") {
        return vec!["Good".to_owned(), "bom".to_owned()];
    }
    if str_eq(text, "Razoável") {
        return vec!["Fair".to_owned(), "razoável".to_owned()];
    }
    if str_eq(text, "Ruim") {
        return vec!["Poor".to_owned(), "ruim".to_owned()];
    }
    if str_eq(text, "Gasolina") {
        return vec!["Gas".to_owned(), "Gasoline".to_owned()];
    }
    if str_eq(text, "Diesel") {
        return vec!["Diesel".to_owned()];
    }
    if str_eq(text, "Híbrido") {
        return vec!["Hybrid".to_owned()];
    }
    if str_eq(text, "Híbrido plug-in") {
        return vec!["Plug-in hybrid".to_owned()];
    }
    if str_eq(text, "Elétrico") {
        return vec!["Electric".to_owned()];
    }
    if str_eq(text, "Flex") {
        return vec!["Flex".to_owned()];
    }
    if str_eq(text, "Cupê") {
        return vec!["Coupe".to_owned()];
    }
    if str_eq(text, "Sedã") {
        return vec!["Sedan".to_owned()];
    }
    if str_eq(text, "Hatch") {
        return vec!["Hatchback".to_owned()];
    }
    if str_eq(text, "SUV") {
        return vec!["SUV".to_owned()];
    }
    if str_eq(text, "Conversível") {
        return vec!["Convertible".to_owned()];
    }
    if str_eq(text, "Station wagon") {
        return vec!["Wagon".to_owned(), "Station".to_owned()];
    }
    if str_eq(text, "Minivan") {
        return vec!["Minivan".to_owned()];
    }
    if str_eq(text, "Carro compacto") {
        return vec!["Compact".to_owned(), "Compact car".to_owned()];
    }
    if str_eq(text, "Outro") {
        return vec!["Other".to_owned()];
    }
    Vec::new()
}

/// Builds the XPath that finds the dropdown option labelled `text`.
pub fn get_option_xpath(text: &str) -> (r: String)
    ensures
        r@ == option_xpath(text@),
{
    let mut terms: Vec<String> = vec![text.to_owned()];
    let mut more = option_synonyms_of(text);
    terms.append(&mut more);
    assert(terms.deep_view() =~= option_terms(text@));
    let mut r = "//*[@role='option'][".to_owned();
    let n = terms.len();
    let mut i: usize = 0;
    while i < n
        invariant
            n == terms.len(),
            i <= n,
            terms.deep_view() == option_terms(text@),
            r@ == "//*[@role='option']["@ + or_tests(terms.deep_view().take(i as int)),
        decreases n - i,
    {
        let ghost before = r@;
        let ghost ts = terms.deep_view();
        if i > 0 {
            r.append(" or ");
        }
        r.append("contains(., '");
        r.append(terms[i].as_str());
        r.append("')");
        assert(ts.take(i + 1).drop_last() =~= ts.take(i as int));
        assert(ts.take(i + 1).last() == terms[i as int]@);
        assert(r@ =~= "//*[@role='option']["@ + or_tests(ts.take(i + 1)));
        i = i + 1;
    }
    assert(terms.deep_view().take(n as int) =~= terms.deep_view());
    r.append("]");
    r
}

} // verus!
