//! Properties of the library that span several of its functions.
use vstd::prelude::*;
use crate::error::{DomainError, UseCasesError};
use crate::images::stored_paths;
use crate::marketplace::{make_is_dropdown, publication_step, signin_done, SigninProbe, signout_step, UrlProbe, PUBLICATION_MAX_POLLS, SIGNOUT_MAX_POLLS};
use crate::options::{contains_test, option_synonyms, option_terms, option_xpath, or_tests};
use crate::models::property::{category_label as property_category_label, model_label, Category as PropertyCategory, Model};
use crate::models::vehicle::{bodystyle_label, category_label, condition_label, fuel_label, BodyStyle, Category, Condition, Fuel};
use crate::usecases::{awaits, listing_step, ListingAction, ListingEvent, ListingFlow};
use crate::forms::{property_plan, vehicle_plan, PlannedStep};
use crate::property::PropertyView;
use crate::vehicle::VehicleView;
use crate::text::{decimal, seq_contains};
use crate::selectors::{
    lemma_property_selectors_distinct, lemma_vehicle_selectors_distinct, PROPERTY_XPATH_ADDRESS_INPUT,
    PROPERTY_XPATH_BATHROOM_INPUT, PROPERTY_XPATH_BEDROOM_INPUT, PROPERTY_XPATH_CATEGORY_DROPDOWN,
    PROPERTY_XPATH_CONDOMINIUM_INPUT, PROPERTY_XPATH_DESCRIPTION_TEXTAREA, PROPERTY_XPATH_METER_INPUT,
    PROPERTY_XPATH_MODEL_DROPDOWN, PROPERTY_XPATH_PARKING_DROPDOWN, PROPERTY_XPATH_PRICE_INPUT, PROPERTY_XPATH_TAX_INPUT,
    VEHICLE_XPATH_BODYSTYLE_DROPDOWN, VEHICLE_XPATH_CONDITION_DROPDOWN, VEHICLE_XPATH_DESCRIPTION_TEXTAREA,
    VEHICLE_XPATH_FUEL_DROPDOWN, VEHICLE_XPATH_LOCATION_INPUT, VEHICLE_XPATH_MAKE_DROPDOWN, VEHICLE_XPATH_MAKE_INPUT,
    VEHICLE_XPATH_MILEAGE_INPUT, VEHICLE_XPATH_MODEL_INPUT, VEHICLE_XPATH_PRICE_INPUT, VEHICLE_XPATH_TYPE_DROPDOWN,
    VEHICLE_XPATH_YEAR_DROPDOWN,
};

verus! {

/// Every stored path comes from a download that succeeded, there are never
/// more paths than downloads, and when every download succeeded the paths are
/// exactly the downloads' paths, in order.
pub proof fn lemma_stored_paths(results: Seq<Option<Seq<char>>>)
    ensures
        stored_paths(results).len() <= results.len(),
        forall|k: int|
            0 <= k < stored_paths(results).len() ==> exists|j: int|
                0 <= j < results.len() && results[j] == Some(#[trigger] stored_paths(results)[k]),
        (forall|j: int| 0 <= j < results.len() ==> #[trigger] results[j] is Some) ==> stored_paths(results)
            == results.map_values(|o: Option<Seq<char>>| o->0),
    decreases results.len(),
{
    if results.len() > 0 {
        let init = results.drop_last();
        lemma_stored_paths(init);
        let sp = stored_paths(results);
        assert forall|k: int| 0 <= k < sp.len() implies exists|j: int|
            0 <= j < results.len() && results[j] == Some(#[trigger] sp[k]) by {
            if k < stored_paths(init).len() {
                let j = choose|j: int| 0 <= j < init.len() && init[j] == Some(stored_paths(init)[k]);
                assert(results[j] == Some(sp[k]));
            } else {
                assert(results[results.len() - 1] == Some(sp[k]));
            }
        }
        if forall|j: int| 0 <= j < results.len() ==> #[trigger] results[j] is Some {
            assert forall|j: int| 0 <= j < init.len() implies #[trigger] init[j] is Some by {
                assert(init[j] == results[j]);
            }
            assert(sp =~= results.map_values(|o: Option<Seq<char>>| o->0));
        }
    }
}

/// The `or`-joined tests of a non-empty list of texts begin with the test of
/// the first text.
proof fn lemma_or_tests_start(ts: Seq<Seq<char>>)
    requires
        ts.len() > 0,
    ensures
        or_tests(ts).len() >= contains_test(ts[0]).len(),
        forall|i: int| 0 <= i < contains_test(ts[0]).len() ==> #[trigger] or_tests(ts)[i] == contains_test(ts[0])[i],
    decreases ts.len(),
{
    if ts.len() > 1 {
        lemma_or_tests_start(ts.drop_last());
        assert(ts.drop_last()[0] == ts[0]);
        let a = or_tests(ts.drop_last());
        let b = " or "@ + contains_test(ts.last());
        assert(or_tests(ts) == a + b);
        assert forall|i: int| 0 <= i < contains_test(ts[0]).len() implies #[trigger] or_tests(ts)[i] == contains_test(ts[0])[i] by {
            assert((a + b)[i] == a[i]);
        }
    }
}

/// The option XPath always looks for the label itself first, and then for its
/// other wordings: it begins with the option prefix followed by the test of
/// the label, and it ends with `]`.
pub proof fn lemma_option_xpath_searches_label_first(t: Seq<char>)
    ensures
        option_xpath(t).subrange(0, ("//*[@role='option']["@ + contains_test(t)).len() as int)
            == "//*[@role='option']["@ + contains_test(t),
        option_xpath(t).last() == ']',
{
    let ts = option_terms(t);
    assert(ts[0] == t);
    lemma_or_tests_start(ts);
    let p = "//*[@role='option']["@;
    let c = contains_test(t);
    let n = (p + c).len() as int;
    let x = p + or_tests(ts) + "]"@;
    assert(x == option_xpath(t));
    assert(x.subrange(0, n) =~= p + c) by {
        assert forall|i: int| 0 <= i < n implies x.subrange(0, n)[i] == (p + c)[i] by {
            if i >= p.len() {
                assert(or_tests(ts)[i - p.len()] == c[i - p.len()]);
            }
        }
    }
    reveal_strlit("]");
}

/// The wait for a publication always ends at the last allowed reading: that
/// reading either sees the listing overview or fails.
pub proof fn lemma_publication_wait_ends(probe: UrlProbe)
    ensures
        !(publication_step((PUBLICATION_MAX_POLLS - 1) as nat, probe) is Waiting),
{
}

/// A page that cannot be read any more ends the wait for a publication as a
/// failure, whatever the number of readings so far.
pub proof fn lemma_closed_page_fails_publication(polls: nat)
    ensures
        publication_step(polls, UrlProbe::Unavailable) is Failed,
{
}

/// The wait for a sign-out always ends at the last allowed reading.
pub proof fn lemma_signout_wait_ends(url: Option<Seq<char>>)
    ensures
        !(signout_step((SIGNOUT_MAX_POLLS - 1) as nat, url) is Waiting),
{
}

/// The result of a use case whose services answered `outcome` at the end.
pub open spec fn use_case_result(outcome: Result<(), DomainError>) -> Result<(), UseCasesError> {
    match outcome {
        Ok(()) => Ok(()),
        Err(e) => Err(UseCasesError::Domain(e)),
    }
}

/// A publication whose listing was fetched goes through the same three steps
/// whatever the listing: the fetched images are the ones stored, the stored
/// files are the ones published, and the use case ends with the publication's
/// own outcome.
pub proof fn lemma_publication_steps(
    images: Vec<String>,
    paths: Vec<String>,
    outcome: Result<(), DomainError>,
)
    ensures
        ({
            let s1 = listing_step(ListingEvent::ListingFetched(images));
            let s2 = listing_step(ListingEvent::ImagesStored(paths));
            let s3 = listing_step(ListingEvent::PublicationDone(outcome));
            &&& awaits(ListingFlow::AwaitingListing, ListingEvent::ListingFetched(images))
            &&& s1 == (ListingFlow::AwaitingImages, ListingAction::StoreImages(images))
            &&& awaits(s1.0, ListingEvent::ImagesStored(paths))
            &&& s2 == (ListingFlow::AwaitingPublication, ListingAction::Publish(paths))
            &&& awaits(s2.0, ListingEvent::PublicationDone(outcome))
            &&& s3 == (ListingFlow::Finished, ListingAction::Finish(use_case_result(outcome)))
        }),
{
}

/// A listing the backend did not return ends the use case at once with the
/// backend's error; nothing is stored or published.
pub proof fn lemma_failed_fetch_stops(e: DomainError)
    ensures
        listing_step(ListingEvent::ListingFailed(e)) == (ListingFlow::Finished, ListingAction::Finish(
            Err::<(), UseCasesError>(UseCasesError::Domain(e)),
        )),
        awaits(ListingFlow::Finished, ListingEvent::ListingFailed(e)) == false,
{
}

/// Every option label the listing forms are filled in with (sale or rent, kind
/// of home, kind of vehicle, body style, state of repair, fuel) is one the
/// option finder also knows in its other wordings, but for the pickup body
/// style, which it finds by its label alone.
pub proof fn lemma_form_labels_have_synonyms(
    m: Model,
    h: PropertyCategory,
    c: Category,
    b: BodyStyle,
    k: Condition,
    f: Fuel,
)
    requires
        b != BodyStyle::Pickup,
    ensures
        option_synonyms(bodystyle_label(b)).len() > 0,
        option_synonyms(model_label(m)).len() > 0,
        option_synonyms(property_category_label(h)).len() > 0,
        option_synonyms(category_label(c)).len() > 0,
        option_synonyms(condition_label(k)).len() > 0,
        option_synonyms(fuel_label(f)).len() > 0,
{
    reveal_strlit("Casa");
    reveal_strlit("Apartamento");
    reveal_strlit("Casa geminada");
    reveal_strlit("À venda");
    reveal_strlit("Aluguel");
    reveal_strlit("Carro/picape");
    reveal_strlit("Motocicleta");
    reveal_strlit("Veículos para esportes");
    reveal_strlit("Trailer");
    reveal_strlit("Reboque");
    reveal_strlit("Barco");
    reveal_strlit("Comercial/industrial");
    reveal_strlit("Excelente");
    reveal_strlit("Muito bom");
    reveal_strlit("Bom");
    reveal_strlit("Razoável");
    reveal_strlit("Ruim");
    reveal_strlit("Gasolina");
    reveal_strlit("Diesel");
    reveal_strlit("Híbrido");
    reveal_strlit("Híbrido plug-in");
    reveal_strlit("Elétrico");
    reveal_strlit("Flex");
    reveal_strlit("Cupê");
    reveal_strlit("Sedã");
    reveal_strlit("Hatch");
    reveal_strlit("SUV");
    reveal_strlit("Conversível");
    reveal_strlit("Station wagon");
    reveal_strlit("Minivan");
    reveal_strlit("Carro compacto");
    reveal_strlit("Outro");
}

// ─── Signing in and out ─────────────────────────────────────────────────────

/// A sign-in is only ever taken as done when the page shows the signed-in
/// banner, no trust prompt is pending and the address is readable and away
/// from the login form; without the banner the seller is never taken as
/// signed in, wherever the page is.
pub proof fn lemma_signin_needs_banner(probe: SigninProbe)
    ensures
        signin_done(probe) ==> probe.signed_in_marker,
        signin_done(probe) ==> !probe.trust_prompt,
        signin_done(probe) ==> (probe.url matches Some(u) && !seq_contains(u@, "login"@)),
        !probe.signed_in_marker ==> !signin_done(probe),
{
}

/// After the logout, any address on the login form, on the logged-out page or
/// on a checkpoint confirms the sign-out, whatever the number of readings so
/// far.
pub proof fn lemma_login_page_confirms_signout(polls: nat, u: Seq<char>)
    requires
        seq_contains(u, "login"@) || seq_contains(u, "logged_out"@) || seq_contains(u, "checkpoint"@),
    ensures
        signout_step(polls, Some(u)) is SignedOut,
{
}

// ─── What each form field receives ─────────────────────────────────────────

/// The text of the vehicle `v` that belongs in the text field found by
/// `field`: the make, the model, the mileage, the price, the place or the
/// description.
pub open spec fn vehicle_field_text(v: VehicleView, field: Seq<char>) -> Option<Seq<char>> {
    if field == VEHICLE_XPATH_MAKE_INPUT@ {
        Some(v.manufacturer)
    } else if field == VEHICLE_XPATH_MODEL_INPUT@ {
        Some(v.model)
    } else if field == VEHICLE_XPATH_MILEAGE_INPUT@ {
        Some(decimal(v.mileage as nat))
    } else if field == VEHICLE_XPATH_PRICE_INPUT@ {
        Some(decimal(v.price as nat))
    } else if field == VEHICLE_XPATH_LOCATION_INPUT@ {
        Some(v.address)
    } else if field == VEHICLE_XPATH_DESCRIPTION_TEXTAREA@ {
        Some(v.description)
    } else {
        None
    }
}

/// The option of the vehicle `v` that belongs in the dropdown found by
/// `dropdown`.
pub open spec fn vehicle_field_option(v: VehicleView, dropdown: Seq<char>) -> Option<Seq<char>> {
    if dropdown == VEHICLE_XPATH_TYPE_DROPDOWN@ {
        Some(category_label(v.category))
    } else if dropdown == VEHICLE_XPATH_YEAR_DROPDOWN@ {
        Some(decimal(v.year as nat))
    } else if dropdown == VEHICLE_XPATH_MAKE_DROPDOWN@ {
        Some(v.manufacturer)
    } else if dropdown == VEHICLE_XPATH_BODYSTYLE_DROPDOWN@ {
        Some(bodystyle_label(v.bodystyle))
    } else if dropdown == VEHICLE_XPATH_CONDITION_DROPDOWN@ {
        Some(condition_label(v.condition))
    } else if dropdown == VEHICLE_XPATH_FUEL_DROPDOWN@ {
        Some(fuel_label(v.fuel))
    } else {
        None
    }
}

/// Whether the form step `s` puts into its field what the field is for, as
/// `text` and `option` say.
pub open spec fn fills_own_field(
    s: PlannedStep,
    text: spec_fn(Seq<char>) -> Option<Seq<char>>,
    option: spec_fn(Seq<char>) -> Option<Seq<char>>,
) -> bool {
    match s {
        PlannedStep::Type(f, t) => text(f) == Some(t),
        PlannedStep::TypeIfPresent(f, t) => text(f) == Some(t),
        PlannedStep::Choose(d, o) => option(d) == Some(o),
        PlannedStep::ChooseIfPresent(d, o) => option(d) == Some(o),
        _ => true,
    }
}

/// Filling in the vehicle form types or picks every one of the vehicle's own
/// values, and each into the field named after it: the model goes into the
/// model field, the price into the price field, the place into the location
/// field, and so on; no step puts one value into another's field.
pub proof fn lemma_vehicle_form_fills_each_field(v: VehicleView)
    ensures
        vehicle_plan(v).contains(PlannedStep::Choose(VEHICLE_XPATH_TYPE_DROPDOWN@, category_label(v.category))),
        vehicle_plan(v).contains(PlannedStep::Choose(VEHICLE_XPATH_YEAR_DROPDOWN@, decimal(v.year as nat))),
        vehicle_plan(v).contains(PlannedStep::Choose(VEHICLE_XPATH_MAKE_DROPDOWN@, v.manufacturer))
            || vehicle_plan(v).contains(PlannedStep::Type(VEHICLE_XPATH_MAKE_INPUT@, v.manufacturer)),
        vehicle_plan(v).contains(PlannedStep::Type(VEHICLE_XPATH_MODEL_INPUT@, v.model)),
        vehicle_plan(v).contains(PlannedStep::TypeIfPresent(VEHICLE_XPATH_MILEAGE_INPUT@, decimal(v.mileage as nat))),
        vehicle_plan(v).contains(PlannedStep::ChooseIfPresent(VEHICLE_XPATH_BODYSTYLE_DROPDOWN@, bodystyle_label(v.bodystyle))),
        vehicle_plan(v).contains(PlannedStep::ChooseIfPresent(VEHICLE_XPATH_CONDITION_DROPDOWN@, condition_label(v.condition))),
        vehicle_plan(v).contains(PlannedStep::ChooseIfPresent(VEHICLE_XPATH_FUEL_DROPDOWN@, fuel_label(v.fuel))),
        vehicle_plan(v).contains(PlannedStep::Type(VEHICLE_XPATH_PRICE_INPUT@, decimal(v.price as nat))),
        vehicle_plan(v).contains(PlannedStep::Type(VEHICLE_XPATH_LOCATION_INPUT@, v.address)),
        vehicle_plan(v).contains(PlannedStep::TypeIfPresent(VEHICLE_XPATH_DESCRIPTION_TEXTAREA@, v.description)),
        forall|i: int|
            0 <= i < vehicle_plan(v).len() ==> fills_own_field(
                #[trigger] vehicle_plan(v)[i],
                |f: Seq<char>| vehicle_field_text(v, f),
                |d: Seq<char>| vehicle_field_option(v, d),
            ),
{
    lemma_vehicle_selectors_distinct();
    let plan = vehicle_plan(v);
    assert(plan[0] == PlannedStep::Choose(VEHICLE_XPATH_TYPE_DROPDOWN@, category_label(v.category)));
    assert(plan[2] == PlannedStep::Choose(VEHICLE_XPATH_YEAR_DROPDOWN@, decimal(v.year as nat)));
    assert(plan[4] == PlannedStep::Type(VEHICLE_XPATH_MODEL_INPUT@, v.model));
    assert(plan[5] == PlannedStep::TypeIfPresent(VEHICLE_XPATH_MILEAGE_INPUT@, decimal(v.mileage as nat)));
    assert(plan[6] == PlannedStep::ChooseIfPresent(VEHICLE_XPATH_BODYSTYLE_DROPDOWN@, bodystyle_label(v.bodystyle)));
    assert(plan[7] == PlannedStep::ChooseIfPresent(VEHICLE_XPATH_CONDITION_DROPDOWN@, condition_label(v.condition)));
    assert(plan[8] == PlannedStep::ChooseIfPresent(VEHICLE_XPATH_FUEL_DROPDOWN@, fuel_label(v.fuel)));
    assert(plan[9] == PlannedStep::Type(VEHICLE_XPATH_PRICE_INPUT@, decimal(v.price as nat)));
    assert(plan[10] == PlannedStep::Type(VEHICLE_XPATH_LOCATION_INPUT@, v.address));
    assert(plan[13] == PlannedStep::TypeIfPresent(VEHICLE_XPATH_DESCRIPTION_TEXTAREA@, v.description));
    if make_is_dropdown(v.category) {
        assert(plan[3] == PlannedStep::Choose(VEHICLE_XPATH_MAKE_DROPDOWN@, v.manufacturer));
    } else {
        assert(plan[3] == PlannedStep::Type(VEHICLE_XPATH_MAKE_INPUT@, v.manufacturer));
    }
}

/// The text of the property `p` that belongs in the text field found by
/// `field`: bedrooms, bathrooms, price, address, description, area, tax or
/// condominium fee.
pub open spec fn property_field_text(p: PropertyView, field: Seq<char>) -> Option<Seq<char>> {
    if field == PROPERTY_XPATH_BEDROOM_INPUT@ {
        Some(decimal(p.bedroom as nat))
    } else if field == PROPERTY_XPATH_BATHROOM_INPUT@ {
        Some(decimal(p.bathroom as nat))
    } else if field == PROPERTY_XPATH_PRICE_INPUT@ {
        Some(decimal(p.price as nat))
    } else if field == PROPERTY_XPATH_ADDRESS_INPUT@ {
        Some(p.address)
    } else if field == PROPERTY_XPATH_DESCRIPTION_TEXTAREA@ {
        Some(p.description)
    } else if field == PROPERTY_XPATH_METER_INPUT@ {
        Some(decimal(p.meter as nat))
    } else if field == PROPERTY_XPATH_TAX_INPUT@ {
        Some(decimal(p.tax as nat))
    } else if field == PROPERTY_XPATH_CONDOMINIUM_INPUT@ {
        Some(decimal(p.condominium as nat))
    } else {
        None
    }
}

/// The option of the property `p` that belongs in the dropdown found by
/// `dropdown`: sale or rent, kind of home, parking spaces.
pub open spec fn property_field_option(p: PropertyView, dropdown: Seq<char>) -> Option<Seq<char>> {
    if dropdown == PROPERTY_XPATH_MODEL_DROPDOWN@ {
        Some(model_label(p.model))
    } else if dropdown == PROPERTY_XPATH_CATEGORY_DROPDOWN@ {
        Some(property_category_label(p.category))
    } else if dropdown == PROPERTY_XPATH_PARKING_DROPDOWN@ {
        Some(decimal(p.parking as nat))
    } else {
        None
    }
}

/// Filling in the property form types or picks every one of the property's
/// own values, and each into the field named after it: the number of bedrooms
/// into the bedroom field, the number of bathrooms into the bathroom field,
/// and so on; no step puts one value into another's field.
pub proof fn lemma_property_form_fills_each_field(p: PropertyView)
    ensures
        property_plan(p).contains(PlannedStep::Choose(PROPERTY_XPATH_MODEL_DROPDOWN@, model_label(p.model))),
        property_plan(p).contains(PlannedStep::Choose(PROPERTY_XPATH_CATEGORY_DROPDOWN@, property_category_label(p.category))),
        property_plan(p).contains(PlannedStep::Type(PROPERTY_XPATH_BEDROOM_INPUT@, decimal(p.bedroom as nat))),
        property_plan(p).contains(PlannedStep::Type(PROPERTY_XPATH_BATHROOM_INPUT@, decimal(p.bathroom as nat))),
        property_plan(p).contains(PlannedStep::Type(PROPERTY_XPATH_PRICE_INPUT@, decimal(p.price as nat))),
        property_plan(p).contains(PlannedStep::Type(PROPERTY_XPATH_ADDRESS_INPUT@, p.address)),
        property_plan(p).contains(PlannedStep::Type(PROPERTY_XPATH_DESCRIPTION_TEXTAREA@, p.description)),
        property_plan(p).contains(PlannedStep::Type(PROPERTY_XPATH_METER_INPUT@, decimal(p.meter as nat))),
        property_plan(p).contains(PlannedStep::Type(PROPERTY_XPATH_TAX_INPUT@, decimal(p.tax as nat))),
        property_plan(p).contains(PlannedStep::Type(PROPERTY_XPATH_CONDOMINIUM_INPUT@, decimal(p.condominium as nat))),
        property_plan(p).contains(PlannedStep::Choose(PROPERTY_XPATH_PARKING_DROPDOWN@, decimal(p.parking as nat))),
        forall|i: int|
            0 <= i < property_plan(p).len() ==> fills_own_field(
                #[trigger] property_plan(p)[i],
                |f: Seq<char>| property_field_text(p, f),
                |d: Seq<char>| property_field_option(p, d),
            ),
{
    lemma_property_selectors_distinct();
    let plan = property_plan(p);
    assert(plan[0] == PlannedStep::Choose(PROPERTY_XPATH_MODEL_DROPDOWN@, model_label(p.model)));
    assert(plan[1] == PlannedStep::Choose(PROPERTY_XPATH_CATEGORY_DROPDOWN@, property_category_label(p.category)));
    assert(plan[2] == PlannedStep::Type(PROPERTY_XPATH_BEDROOM_INPUT@, decimal(p.bedroom as nat)));
    assert(plan[3] == PlannedStep::Type(PROPERTY_XPATH_BATHROOM_INPUT@, decimal(p.bathroom as nat)));
    assert(plan[4] == PlannedStep::Type(PROPERTY_XPATH_PRICE_INPUT@, decimal(p.price as nat)));
    assert(plan[5] == PlannedStep::Type(PROPERTY_XPATH_ADDRESS_INPUT@, p.address));
    assert(plan[8] == PlannedStep::Type(PROPERTY_XPATH_DESCRIPTION_TEXTAREA@, p.description));
    assert(plan[9] == PlannedStep::Type(PROPERTY_XPATH_METER_INPUT@, decimal(p.meter as nat)));
    assert(plan[10] == PlannedStep::Type(PROPERTY_XPATH_TAX_INPUT@, decimal(p.tax as nat)));
    assert(plan[11] == PlannedStep::Type(PROPERTY_XPATH_CONDOMINIUM_INPUT@, decimal(p.condominium as nat)));
    assert(plan[12] == PlannedStep::Choose(PROPERTY_XPATH_PARKING_DROPDOWN@, decimal(p.parking as nat)));
}

// ─── Options are told apart ────────────────────────────────────────────────

/// Whether no text of `a` is also a text of `b`.
pub open spec fn share_no_text(a: Seq<Seq<char>>, b: Seq<Seq<char>>) -> bool {
    forall|i: int, j: int| 0 <= i < a.len() && 0 <= j < b.len() ==> a[i] != b[j]
}

/// The other wordings the option finder knows for each label it has any for,
/// and for the pickup body style, which has none.
proof fn lemma_option_synonym_table()
    ensures
        option_synonyms("Casa"@) == seq!["House"@],
        option_synonyms("Apartamento"@) == seq!["Apartment"@, "Condo"@],
        option_synonyms("Casa geminada"@) == seq!["Townhouse"@],
        option_synonyms("À venda"@) == seq!["sale"@, "Venda"@, "For sale"@],
        option_synonyms("Aluguel"@) == seq!["rent"@, "Locação"@, "Aluguel"@, "For rent"@],
        option_synonyms("Carro/picape"@) == seq!["Car/Truck"@, "Car or pickup"@, "Carro"@, "Picape"@, "Carro/Caminhão"@],
        option_synonyms("Motocicleta"@) == seq!["Motorcycle"@],
        option_synonyms("Veículos para esportes"@) == seq!["Powersport"@, "Powersports"@],
        option_synonyms("Trailer"@) == seq!["Trailer"@],
        option_synonyms("Reboque"@) == seq!["Utility trailer"@, "reboque"@],
        option_synonyms("Barco"@) == seq!["Boat"@],
        option_synonyms("Comercial/industrial"@) == seq!["Commercial"@, "Industrial"@],
        option_synonyms("Excelente"@) == seq!["Like new"@, "excelente"@],
        option_synonyms("Muito bom"@) == seq!["Very good"@, "muito bom"@],
        option_synonyms("Bom"@) == seq!["Good"@, "bom"@],
        option_synonyms("Razoável"@) == seq!["Fair"@, "razoável"@],
        option_synonyms("Ruim"@) == seq!["Poor"@, "ruim"@],
        option_synonyms("Gasolina"@) == seq!["Gas"@, "Gasoline"@],
        option_synonyms("Diesel"@) == seq!["Diesel"@],
        option_synonyms("Híbrido"@) == seq!["Hybrid"@],
        option_synonyms("Híbrido plug-in"@) == seq!["Plug-in hybrid"@],
        option_synonyms("Elétrico"@) == seq!["Electric"@],
        option_synonyms("Flex"@) == seq!["Flex"@],
        option_synonyms("Cupê"@) == seq!["Coupe"@],
        option_synonyms("Sedã"@) == seq!["Sedan"@],
        option_synonyms("Hatch"@) == seq!["Hatchback"@],
        option_synonyms("SUV"@) == seq!["SUV"@],
        option_synonyms("Conversível"@) == seq!["Convertible"@],
        option_synonyms("Station wagon"@) == seq!["Wagon"@, "Station"@],
        option_synonyms("Minivan"@) == seq!["Minivan"@],
        option_synonyms("Carro compacto"@) == seq!["Compact"@, "Compact car"@],
        option_synonyms("Outro"@) == seq!["Other"@],
        option_synonyms("Picape"@) == Seq::<Seq<char>>::empty(),
{
    reveal_strlit("Casa");
    reveal_strlit("Apartamento");
    reveal_strlit("Casa geminada");
    reveal_strlit("À venda");
    reveal_strlit("Aluguel");
    reveal_strlit("Carro/picape");
    reveal_strlit("Motocicleta");
    reveal_strlit("Veículos para esportes");
    reveal_strlit("Trailer");
    reveal_strlit("Reboque");
    reveal_strlit("Barco");
    reveal_strlit("Comercial/industrial");
    reveal_strlit("Excelente");
    reveal_strlit("Muito bom");
    reveal_strlit("Bom");
    reveal_strlit("Razoável");
    reveal_strlit("Ruim");
    reveal_strlit("Gasolina");
    reveal_strlit("Diesel");
    reveal_strlit("Híbrido");
    reveal_strlit("Híbrido plug-in");
    reveal_strlit("Elétrico");
    reveal_strlit("Flex");
    reveal_strlit("Cupê");
    reveal_strlit("Sedã");
    reveal_strlit("Hatch");
    reveal_strlit("SUV");
    reveal_strlit("Conversível");
    reveal_strlit("Station wagon");
    reveal_strlit("Minivan");
    reveal_strlit("Carro compacto");
    reveal_strlit("Outro");
    assert("Casa"@.len() == 4);
    assert("Apartamento"@.len() == 11);
    assert("Casa geminada"@.len() == 13);
    assert("À venda"@.len() == 7);
    assert("Aluguel"@.len() == 7);
    assert("Carro/picape"@.len() == 12);
    assert("Motocicleta"@.len() == 11);
    assert("Veículos para esportes"@.len() == 22);
    assert("Trailer"@.len() == 7);
    assert("Reboque"@.len() == 7);
    assert("Barco"@.len() == 5);
    assert("Comercial/industrial"@.len() == 20);
    assert("Excelente"@.len() == 9);
    assert("Muito bom"@.len() == 9);
    assert("Bom"@.len() == 3);
    assert("Razoável"@.len() == 8);
    assert("Ruim"@.len() == 4);
    assert("Gasolina"@.len() == 8);
    assert("Diesel"@.len() == 6);
    assert("Híbrido"@.len() == 7);
    assert("Híbrido plug-in"@.len() == 15);
    assert("Elétrico"@.len() == 8);
    assert("Flex"@.len() == 4);
    assert("Cupê"@.len() == 4);
    assert("Sedã"@.len() == 4);
    assert("Hatch"@.len() == 5);
    assert("SUV"@.len() == 3);
    assert("Conversível"@.len() == 11);
    assert("Station wagon"@.len() == 13);
    assert("Minivan"@.len() == 7);
    assert("Carro compacto"@.len() == 14);
    assert("Outro"@.len() == 5);
    assert("Casa"@[0] != "Ruim"@[0]);
    assert("Casa"@[0] != "Flex"@[0]);
    assert("Casa"@[1] != "Cupê"@[1]);
    assert("Casa"@[0] != "Sedã"@[0]);
    assert("Apartamento"@[0] != "Motocicleta"@[0]);
    assert("Apartamento"@[0] != "Conversível"@[0]);
    assert("Casa geminada"@[0] != "Station wagon"@[0]);
    assert("À venda"@[0] != "Aluguel"@[0]);
    assert("À venda"@[0] != "Trailer"@[0]);
    assert("À venda"@[0] != "Reboque"@[0]);
    assert("À venda"@[0] != "Híbrido"@[0]);
    assert("À venda"@[0] != "Minivan"@[0]);
    assert("Aluguel"@[0] != "Trailer"@[0]);
    assert("Aluguel"@[0] != "Reboque"@[0]);
    assert("Aluguel"@[0] != "Híbrido"@[0]);
    assert("Aluguel"@[0] != "Minivan"@[0]);
    assert("Motocicleta"@[0] != "Conversível"@[0]);
    assert("Trailer"@[0] != "Reboque"@[0]);
    assert("Trailer"@[0] != "Híbrido"@[0]);
    assert("Trailer"@[0] != "Minivan"@[0]);
    assert("Reboque"@[0] != "Híbrido"@[0]);
    assert("Reboque"@[0] != "Minivan"@[0]);
    assert("Barco"@[0] != "Hatch"@[0]);
    assert("Barco"@[0] != "Outro"@[0]);
    assert("Excelente"@[0] != "Muito bom"@[0]);
    assert("Bom"@[0] != "SUV"@[0]);
    assert("Razoável"@[0] != "Gasolina"@[0]);
    assert("Razoável"@[0] != "Elétrico"@[0]);
    assert("Ruim"@[0] != "Flex"@[0]);
    assert("Ruim"@[0] != "Cupê"@[0]);
    assert("Ruim"@[0] != "Sedã"@[0]);
    assert("Gasolina"@[0] != "Elétrico"@[0]);
    assert("Híbrido"@[0] != "Minivan"@[0]);
    assert("Flex"@[0] != "Cupê"@[0]);
    assert("Flex"@[0] != "Sedã"@[0]);
    assert("Cupê"@[0] != "Sedã"@[0]);
    assert("Hatch"@[0] != "Outro"@[0]);
    reveal_strlit("Picape");
    assert("Picape"@.len() == 6);
    assert("Picape"@[0] != "Diesel"@[0]);
}

/// Two different kinds of vehicle are searched by different texts: no label or
/// other wording of one is a label or other wording of the other, so the
/// option finder never clicks one of them for the other.
pub proof fn lemma_vehicle_kind_options_apart(a: Category, b: Category)
    requires
        a != b,
    ensures
        share_no_text(option_terms(category_label(a)), option_terms(category_label(b))),
{
    lemma_option_synonym_table();
    reveal_strlit("Carro/picape");
    reveal_strlit("Car/Truck");
    reveal_strlit("Car or pickup");
    reveal_strlit("Carro");
    reveal_strlit("Picape");
    reveal_strlit("Carro/Caminhão");
    reveal_strlit("Motocicleta");
    reveal_strlit("Motorcycle");
    reveal_strlit("Veículos para esportes");
    reveal_strlit("Powersport");
    reveal_strlit("Powersports");
    reveal_strlit("Trailer");
    reveal_strlit("Reboque");
    reveal_strlit("Utility trailer");
    reveal_strlit("reboque");
    reveal_strlit("Barco");
    reveal_strlit("Boat");
    reveal_strlit("Comercial/industrial");
    reveal_strlit("Commercial");
    reveal_strlit("Industrial");
    reveal_strlit("Outro");
    reveal_strlit("Other");
    assert("Carro/picape"@.len() == 12);
    assert("Car/Truck"@.len() == 9);
    assert("Car or pickup"@.len() == 13);
    assert("Carro"@.len() == 5);
    assert("Picape"@.len() == 6);
    assert("Carro/Caminhão"@.len() == 14);
    assert("Motocicleta"@.len() == 11);
    assert("Motorcycle"@.len() == 10);
    assert("Veículos para esportes"@.len() == 22);
    assert("Powersport"@.len() == 10);
    assert("Powersports"@.len() == 11);
    assert("Trailer"@.len() == 7);
    assert("Reboque"@.len() == 7);
    assert("Utility trailer"@.len() == 15);
    assert("reboque"@.len() == 7);
    assert("Barco"@.len() == 5);
    assert("Boat"@.len() == 4);
    assert("Comercial/industrial"@.len() == 20);
    assert("Commercial"@.len() == 10);
    assert("Industrial"@.len() == 10);
    assert("Outro"@.len() == 5);
    assert("Other"@.len() == 5);
    assert("Carro"@[0] != "Barco"@[0]);
    assert("Carro"@[0] != "Outro"@[0]);
    assert("Carro"@[0] != "Other"@[0]);
    assert("Motocicleta"@[0] != "Powersports"@[0]);
    assert("Motorcycle"@[0] != "Powersport"@[0]);
    assert("Motorcycle"@[0] != "Commercial"@[0]);
    assert("Motorcycle"@[0] != "Industrial"@[0]);
    assert("Powersport"@[0] != "Commercial"@[0]);
    assert("Powersport"@[0] != "Industrial"@[0]);
    assert("Trailer"@[0] != "Reboque"@[0]);
    assert("Trailer"@[0] != "reboque"@[0]);
    assert("Barco"@[0] != "Outro"@[0]);
    assert("Barco"@[0] != "Other"@[0]);
    assert(option_terms("Carro/picape"@) =~= seq!["Carro/picape"@, "Car/Truck"@, "Car or pickup"@, "Carro"@, "Picape"@, "Carro/Caminhão"@]);
    assert(option_terms("Motocicleta"@) =~= seq!["Motocicleta"@, "Motorcycle"@]);
    assert(option_terms("Veículos para esportes"@) =~= seq!["Veículos para esportes"@, "Powersport"@, "Powersports"@]);
    assert(option_terms("Trailer"@) =~= seq!["Trailer"@, "Trailer"@]);
    assert(option_terms("Reboque"@) =~= seq!["Reboque"@, "Utility trailer"@, "reboque"@]);
    assert(option_terms("Barco"@) =~= seq!["Barco"@, "Boat"@]);
    assert(option_terms("Comercial/industrial"@) =~= seq!["Comercial/industrial"@, "Commercial"@, "Industrial"@]);
    assert(option_terms("Outro"@) =~= seq!["Outro"@, "Other"@]);
}

/// Two different body styles are searched by different texts: no label or
/// other wording of one is a label or other wording of the other, so the
/// option finder never clicks one of them for the other.
pub proof fn lemma_body_style_options_apart(a: BodyStyle, b: BodyStyle)
    requires
        a != b,
    ensures
        share_no_text(option_terms(bodystyle_label(a)), option_terms(bodystyle_label(b))),
{
    lemma_option_synonym_table();
    reveal_strlit("Cupê");
    reveal_strlit("Coupe");
    reveal_strlit("Picape");
    reveal_strlit("Sedã");
    reveal_strlit("Sedan");
    reveal_strlit("Hatch");
    reveal_strlit("Hatchback");
    reveal_strlit("SUV");
    reveal_strlit("Conversível");
    reveal_strlit("Convertible");
    reveal_strlit("Station wagon");
    reveal_strlit("Wagon");
    reveal_strlit("Station");
    reveal_strlit("Minivan");
    reveal_strlit("Carro compacto");
    reveal_strlit("Compact");
    reveal_strlit("Compact car");
    reveal_strlit("Outro");
    reveal_strlit("Other");
    assert("Cupê"@.len() == 4);
    assert("Coupe"@.len() == 5);
    assert("Picape"@.len() == 6);
    assert("Sedã"@.len() == 4);
    assert("Sedan"@.len() == 5);
    assert("Hatch"@.len() == 5);
    assert("Hatchback"@.len() == 9);
    assert("SUV"@.len() == 3);
    assert("Conversível"@.len() == 11);
    assert("Convertible"@.len() == 11);
    assert("Station wagon"@.len() == 13);
    assert("Wagon"@.len() == 5);
    assert("Station"@.len() == 7);
    assert("Minivan"@.len() == 7);
    assert("Carro compacto"@.len() == 14);
    assert("Compact"@.len() == 7);
    assert("Compact car"@.len() == 11);
    assert("Outro"@.len() == 5);
    assert("Other"@.len() == 5);
    assert("Cupê"@[0] != "Sedã"@[0]);
    assert("Coupe"@[0] != "Sedan"@[0]);
    assert("Coupe"@[0] != "Hatch"@[0]);
    assert("Coupe"@[0] != "Wagon"@[0]);
    assert("Coupe"@[0] != "Outro"@[0]);
    assert("Coupe"@[0] != "Other"@[0]);
    assert("Sedan"@[0] != "Hatch"@[0]);
    assert("Sedan"@[0] != "Wagon"@[0]);
    assert("Sedan"@[0] != "Outro"@[0]);
    assert("Sedan"@[0] != "Other"@[0]);
    assert("Hatch"@[0] != "Wagon"@[0]);
    assert("Hatch"@[0] != "Outro"@[0]);
    assert("Hatch"@[0] != "Other"@[0]);
    assert("Conversível"@[2] != "Compact car"@[2]);
    assert("Convertible"@[2] != "Compact car"@[2]);
    assert("Station"@[0] != "Minivan"@[0]);
    assert("Station"@[0] != "Compact"@[0]);
    assert("Wagon"@[0] != "Outro"@[0]);
    assert("Wagon"@[0] != "Other"@[0]);
    assert("Minivan"@[0] != "Compact"@[0]);
    assert(option_terms("Cupê"@) =~= seq!["Cupê"@, "Coupe"@]);
    assert(option_terms("Picape"@) =~= seq!["Picape"@]);
    assert(option_terms("Sedã"@) =~= seq!["Sedã"@, "Sedan"@]);
    assert(option_terms("Hatch"@) =~= seq!["Hatch"@, "Hatchback"@]);
    assert(option_terms("SUV"@) =~= seq!["SUV"@, "SUV"@]);
    assert(option_terms("Conversível"@) =~= seq!["Conversível"@, "Convertible"@]);
    assert(option_terms("Station wagon"@) =~= seq!["Station wagon"@, "Wagon"@, "Station"@]);
    assert(option_terms("Minivan"@) =~= seq!["Minivan"@, "Minivan"@]);
    assert(option_terms("Carro compacto"@) =~= seq!["Carro compacto"@, "Compact"@, "Compact car"@]);
    assert(option_terms("Outro"@) =~= seq!["Outro"@, "Other"@]);
}

/// Two different states of repair are searched by different texts: no label or
/// other wording of one is a label or other wording of the other, so the
/// option finder never clicks one of them for the other.
pub proof fn lemma_condition_options_apart(a: Condition, b: Condition)
    requires
        a != b,
    ensures
        share_no_text(option_terms(condition_label(a)), option_terms(condition_label(b))),
{
    lemma_option_synonym_table();
    reveal_strlit("Excelente");
    reveal_strlit("Like new");
    reveal_strlit("excelente");
    reveal_strlit("Muito bom");
    reveal_strlit("Very good");
    reveal_strlit("muito bom");
    reveal_strlit("Bom");
    reveal_strlit("Good");
    reveal_strlit("bom");
    reveal_strlit("Razoável");
    reveal_strlit("Fair");
    reveal_strlit("razoável");
    reveal_strlit("Ruim");
    reveal_strlit("Poor");
    reveal_strlit("ruim");
    assert("Excelente"@.len() == 9);
    assert("Like new"@.len() == 8);
    assert("excelente"@.len() == 9);
    assert("Muito bom"@.len() == 9);
    assert("Very good"@.len() == 9);
    assert("muito bom"@.len() == 9);
    assert("Bom"@.len() == 3);
    assert("Good"@.len() == 4);
    assert("bom"@.len() == 3);
    assert("Razoável"@.len() == 8);
    assert("Fair"@.len() == 4);
    assert("razoável"@.len() == 8);
    assert("Ruim"@.len() == 4);
    assert("Poor"@.len() == 4);
    assert("ruim"@.len() == 4);
    assert("Excelente"@[0] != "Muito bom"@[0]);
    assert("Excelente"@[0] != "Very good"@[0]);
    assert("Excelente"@[0] != "muito bom"@[0]);
    assert("excelente"@[0] != "Muito bom"@[0]);
    assert("excelente"@[0] != "Very good"@[0]);
    assert("excelente"@[0] != "muito bom"@[0]);
    assert("Like new"@[0] != "Razoável"@[0]);
    assert("Like new"@[0] != "razoável"@[0]);
    assert("Good"@[0] != "Fair"@[0]);
    assert("Good"@[0] != "Ruim"@[0]);
    assert("Good"@[0] != "Poor"@[0]);
    assert("Good"@[0] != "ruim"@[0]);
    assert("Fair"@[0] != "Ruim"@[0]);
    assert("Fair"@[0] != "Poor"@[0]);
    assert("Fair"@[0] != "ruim"@[0]);
    assert(option_terms("Excelente"@) =~= seq!["Excelente"@, "Like new"@, "excelente"@]);
    assert(option_terms("Muito bom"@) =~= seq!["Muito bom"@, "Very good"@, "muito bom"@]);
    assert(option_terms("Bom"@) =~= seq!["Bom"@, "Good"@, "bom"@]);
    assert(option_terms("Razoável"@) =~= seq!["Razoável"@, "Fair"@, "razoável"@]);
    assert(option_terms("Ruim"@) =~= seq!["Ruim"@, "Poor"@, "ruim"@]);
}

/// Two different fuels are searched by different texts: no label or
/// other wording of one is a label or other wording of the other, so the
/// option finder never clicks one of them for the other.
pub proof fn lemma_fuel_options_apart(a: Fuel, b: Fuel)
    requires
        a != b,
    ensures
        share_no_text(option_terms(fuel_label(a)), option_terms(fuel_label(b))),
{
    lemma_option_synonym_table();
    reveal_strlit("Diesel");
    reveal_strlit("Elétrico");
    reveal_strlit("Electric");
    reveal_strlit("Gasolina");
    reveal_strlit("Gas");
    reveal_strlit("Gasoline");
    reveal_strlit("Flex");
    reveal_strlit("Híbrido");
    reveal_strlit("Hybrid");
    reveal_strlit("Híbrido plug-in");
    reveal_strlit("Plug-in hybrid");
    reveal_strlit("Outro");
    reveal_strlit("Other");
    assert("Diesel"@.len() == 6);
    assert("Elétrico"@.len() == 8);
    assert("Electric"@.len() == 8);
    assert("Gasolina"@.len() == 8);
    assert("Gas"@.len() == 3);
    assert("Gasoline"@.len() == 8);
    assert("Flex"@.len() == 4);
    assert("Híbrido"@.len() == 7);
    assert("Hybrid"@.len() == 6);
    assert("Híbrido plug-in"@.len() == 15);
    assert("Plug-in hybrid"@.len() == 14);
    assert("Outro"@.len() == 5);
    assert("Other"@.len() == 5);
    assert("Diesel"@[0] != "Hybrid"@[0]);
    assert("Elétrico"@[0] != "Gasolina"@[0]);
    assert("Elétrico"@[0] != "Gasoline"@[0]);
    assert("Electric"@[0] != "Gasolina"@[0]);
    assert("Electric"@[0] != "Gasoline"@[0]);
    assert(option_terms("Diesel"@) =~= seq!["Diesel"@, "Diesel"@]);
    assert(option_terms("Elétrico"@) =~= seq!["Elétrico"@, "Electric"@]);
    assert(option_terms("Gasolina"@) =~= seq!["Gasolina"@, "Gas"@, "Gasoline"@]);
    assert(option_terms("Flex"@) =~= seq!["Flex"@, "Flex"@]);
    assert(option_terms("Híbrido"@) =~= seq!["Híbrido"@, "Hybrid"@]);
    assert(option_terms("Híbrido plug-in"@) =~= seq!["Híbrido plug-in"@, "Plug-in hybrid"@]);
    assert(option_terms("Outro"@) =~= seq!["Outro"@, "Other"@]);
}

/// Two different listing types (sale or rent) are searched by different texts: no label or
/// other wording of one is a label or other wording of the other, so the
/// option finder never clicks one of them for the other.
pub proof fn lemma_listing_type_options_apart(a: Model, b: Model)
    requires
        a != b,
    ensures
        share_no_text(option_terms(model_label(a)), option_terms(model_label(b))),
{
    lemma_option_synonym_table();
    reveal_strlit("À venda");
    reveal_strlit("sale");
    reveal_strlit("Venda");
    reveal_strlit("For sale");
    reveal_strlit("Aluguel");
    reveal_strlit("rent");
    reveal_strlit("Locação");
    reveal_strlit("For rent");
    assert("À venda"@.len() == 7);
    assert("sale"@.len() == 4);
    assert("Venda"@.len() == 5);
    assert("For sale"@.len() == 8);
    assert("Aluguel"@.len() == 7);
    assert("rent"@.len() == 4);
    assert("Locação"@.len() == 7);
    assert("For rent"@.len() == 8);
    assert("À venda"@[0] != "Aluguel"@[0]);
    assert("À venda"@[0] != "Locação"@[0]);
    assert("sale"@[0] != "rent"@[0]);
    assert("For sale"@[4] != "For rent"@[4]);
    assert(option_terms("À venda"@) =~= seq!["À venda"@, "sale"@, "Venda"@, "For sale"@]);
    assert(option_terms("Aluguel"@) =~= seq!["Aluguel"@, "rent"@, "Locação"@, "Aluguel"@, "For rent"@]);
}

/// Two different kinds of home are searched by different texts: no label or
/// other wording of one is a label or other wording of the other, so the
/// option finder never clicks one of them for the other.
pub proof fn lemma_home_kind_options_apart(a: PropertyCategory, b: PropertyCategory)
    requires
        a != b,
    ensures
        share_no_text(option_terms(property_category_label(a)), option_terms(property_category_label(b))),
{
    lemma_option_synonym_table();
    reveal_strlit("Casa");
    reveal_strlit("House");
    reveal_strlit("Apartamento");
    reveal_strlit("Apartment");
    reveal_strlit("Condo");
    reveal_strlit("Casa geminada");
    reveal_strlit("Townhouse");
    assert("Casa"@.len() == 4);
    assert("House"@.len() == 5);
    assert("Apartamento"@.len() == 11);
    assert("Apartment"@.len() == 9);
    assert("Condo"@.len() == 5);
    assert("Casa geminada"@.len() == 13);
    assert("Townhouse"@.len() == 9);
    assert("House"@[0] != "Condo"@[0]);
    assert("Apartment"@[0] != "Townhouse"@[0]);
    assert(option_terms("Casa"@) =~= seq!["Casa"@, "House"@]);
    assert(option_terms("Apartamento"@) =~= seq!["Apartamento"@, "Apartment"@, "Condo"@]);
    assert(option_terms("Casa geminada"@) =~= seq!["Casa geminada"@, "Townhouse"@]);
}

} // verus!
