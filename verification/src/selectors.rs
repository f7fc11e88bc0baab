//! The selectors that locate the fields of the listing forms. Each one accepts
//! the label in Portuguese, English or Spanish.
use vstd::prelude::*;

verus! {

// ─── Property form ──────────────────────────────────────────────────────────

pub const PROPERTY_XPATH_MODEL_DROPDOWN: &'static str = "//label[@role='combobox'][contains(., 'venda ou locação') or contains(., 'Home for sale or rent') or contains(., 'Home for sale') or contains(., 'Property for rent') or contains(., 'Property for sale') or contains(., 'Listing type') or contains(., 'Alquiler')]";

pub const PROPERTY_XPATH_CATEGORY_DROPDOWN: &'static str = "//label[@role='combobox'][contains(., 'Tipo de imóvel') or contains(., 'Home type') or contains(., 'Property type') or contains(., 'Tipo de propiedad')]";

pub const PROPERTY_XPATH_PARKING_DROPDOWN: &'static str = "//label[@role='combobox'][contains(., 'Vagas de estacionamento') or contains(., 'Parking spaces') or contains(., 'Parking') or contains(., 'Plazas de aparcamiento') or contains(., 'Estacionamiento')]";

pub const PROPERTY_XPATH_BEDROOM_INPUT: &'static str = "//span[contains(., 'Número de quartos') or contains(., 'Number of bedrooms') or contains(., 'Bedrooms') or contains(., 'Habitaciones') or contains(., 'Quartos')]/following::input[1]";

pub const PROPERTY_XPATH_BATHROOM_INPUT: &'static str = "//span[contains(., 'Número de banheiros') or contains(., 'Number of bathrooms') or contains(., 'Bathrooms') or contains(., 'Baños') or contains(., 'Banheiros')]/following::input[1]";

pub const PROPERTY_XPATH_PRICE_INPUT: &'static str = "//span[contains(., 'Preço') or contains(., 'Price') or contains(., 'Precio')]/following::input[1]";

pub const PROPERTY_XPATH_ADDRESS_INPUT: &'static str = "//input[@role='combobox'][@aria-autocomplete='list'][not(contains(@aria-label, 'Pesquisar'))][not(contains(@aria-label, 'Search'))]";

pub const PROPERTY_XPATH_DESCRIPTION_TEXTAREA: &'static str = "//span[contains(., 'Descrição do imóvel') or contains(., 'Descrição') or contains(., 'Property description') or contains(., 'Description') or contains(., 'Descripción')]/following::textarea[1]";

pub const PROPERTY_XPATH_METER_INPUT: &'static str = "//span[contains(., 'Metros quadrados') or contains(., 'Área útil') or contains(., 'Square feet') or contains(., 'Square meters') or contains(., 'Metros cuadrados')]/following::input[1]";

pub const PROPERTY_XPATH_TAX_INPUT: &'static str = "//span[contains(., 'Imposto') or contains(., 'Tax') or contains(., 'Impuesto')]/following::input[1]";

pub const PROPERTY_XPATH_CONDOMINIUM_INPUT: &'static str = "//span[contains(., 'Condomínio') or contains(., 'Condo') or contains(., 'HOA fee') or contains(., 'HOA') or contains(., 'Condominio')]/following::input[1]";

// ─── Vehicle form ───────────────────────────────────────────────────────────

pub const VEHICLE_XPATH_TYPE_DROPDOWN: &'static str = "//label[@role='combobox'][contains(., 'Tipo de veículo') or contains(., 'Vehicle type') or contains(., 'Type') or contains(., 'Tipo de vehículo')]";

pub const VEHICLE_XPATH_YEAR_DROPDOWN: &'static str = "//label[@role='combobox'][contains(., 'Ano') or contains(., 'Year') or contains(., 'Año')]";

pub const VEHICLE_XPATH_MAKE_DROPDOWN: &'static str = "//label[@role='combobox'][contains(., 'Fabricante') or contains(., 'Make') or contains(., 'Marca')]";

pub const VEHICLE_XPATH_MAKE_INPUT: &'static str = "//span[contains(., 'Fabricante') or contains(., 'Make') or contains(., 'Marca')]/following::input[1]";

pub const VEHICLE_XPATH_MODEL_INPUT: &'static str = "//span[contains(., 'Modelo') or contains(., 'Model')]/following::input[1]";

pub const VEHICLE_XPATH_MILEAGE_INPUT: &'static str = "//span[contains(., 'Quilometragem') or contains(., 'Mileage') or contains(., 'Kilometraje') or contains(., 'Odometer')]/following::input[1]";

pub const VEHICLE_XPATH_PRICE_INPUT: &'static str = "//span[contains(., 'Preço') or contains(., 'Price') or contains(., 'Precio')]/following::input[1]";

pub const VEHICLE_XPATH_BODYSTYLE_DROPDOWN: &'static str = "//label[@role='combobox'][contains(., 'Estilo da carroceria') or contains(., 'Body style') or contains(., 'Body Style') or contains(., 'Carrocería')]";

pub const VEHICLE_XPATH_CONDITION_DROPDOWN: &'static str = "//label[@role='combobox'][contains(., 'Condição do veículo') or contains(., 'Condição') or contains(., 'Condition') or contains(., 'Condición')]";

pub const VEHICLE_XPATH_FUEL_DROPDOWN: &'static str = "//label[@role='combobox'][contains(., 'Tipo de combustível') or contains(., 'Fuel type') or contains(., 'Fuel') or contains(., 'Combustible')]";

pub const VEHICLE_XPATH_LOCATION_INPUT: &'static str = "//input[@role='combobox'][@aria-label='Localização' or @aria-label='Location' or @aria-label='Ubicación']";

pub const VEHICLE_XPATH_DESCRIPTION_TEXTAREA: &'static str = "//span[contains(., 'Descrição') or contains(., 'Description') or contains(., 'Descripción')]/following::textarea[1]";

// ─── Distinct fields ────────────────────────────────────────────────────────

/// The property form's text fields are found by different selectors, and so
/// are its dropdowns.
pub proof fn lemma_property_selectors_distinct()
    ensures
        PROPERTY_XPATH_BEDROOM_INPUT@ != PROPERTY_XPATH_BATHROOM_INPUT@,
        PROPERTY_XPATH_BEDROOM_INPUT@ != PROPERTY_XPATH_PRICE_INPUT@,
        PROPERTY_XPATH_BEDROOM_INPUT@ != PROPERTY_XPATH_ADDRESS_INPUT@,
        PROPERTY_XPATH_BEDROOM_INPUT@ != PROPERTY_XPATH_DESCRIPTION_TEXTAREA@,
        PROPERTY_XPATH_BEDROOM_INPUT@ != PROPERTY_XPATH_METER_INPUT@,
        PROPERTY_XPATH_BEDROOM_INPUT@ != PROPERTY_XPATH_TAX_INPUT@,
        PROPERTY_XPATH_BEDROOM_INPUT@ != PROPERTY_XPATH_CONDOMINIUM_INPUT@,
        PROPERTY_XPATH_BATHROOM_INPUT@ != PROPERTY_XPATH_PRICE_INPUT@,
        PROPERTY_XPATH_BATHROOM_INPUT@ != PROPERTY_XPATH_ADDRESS_INPUT@,
        PROPERTY_XPATH_BATHROOM_INPUT@ != PROPERTY_XPATH_DESCRIPTION_TEXTAREA@,
        PROPERTY_XPATH_BATHROOM_INPUT@ != PROPERTY_XPATH_METER_INPUT@,
        PROPERTY_XPATH_BATHROOM_INPUT@ != PROPERTY_XPATH_TAX_INPUT@,
        PROPERTY_XPATH_BATHROOM_INPUT@ != PROPERTY_XPATH_CONDOMINIUM_INPUT@,
        PROPERTY_XPATH_PRICE_INPUT@ != PROPERTY_XPATH_ADDRESS_INPUT@,
        PROPERTY_XPATH_PRICE_INPUT@ != PROPERTY_XPATH_DESCRIPTION_TEXTAREA@,
        PROPERTY_XPATH_PRICE_INPUT@ != PROPERTY_XPATH_METER_INPUT@,
        PROPERTY_XPATH_PRICE_INPUT@ != PROPERTY_XPATH_TAX_INPUT@,
        PROPERTY_XPATH_PRICE_INPUT@ != PROPERTY_XPATH_CONDOMINIUM_INPUT@,
        PROPERTY_XPATH_ADDRESS_INPUT@ != PROPERTY_XPATH_DESCRIPTION_TEXTAREA@,
        PROPERTY_XPATH_ADDRESS_INPUT@ != PROPERTY_XPATH_METER_INPUT@,
        PROPERTY_XPATH_ADDRESS_INPUT@ != PROPERTY_XPATH_TAX_INPUT@,
        PROPERTY_XPATH_ADDRESS_INPUT@ != PROPERTY_XPATH_CONDOMINIUM_INPUT@,
        PROPERTY_XPATH_DESCRIPTION_TEXTAREA@ != PROPERTY_XPATH_METER_INPUT@,
        PROPERTY_XPATH_DESCRIPTION_TEXTAREA@ != PROPERTY_XPATH_TAX_INPUT@,
        PROPERTY_XPATH_DESCRIPTION_TEXTAREA@ != PROPERTY_XPATH_CONDOMINIUM_INPUT@,
        PROPERTY_XPATH_METER_INPUT@ != PROPERTY_XPATH_TAX_INPUT@,
        PROPERTY_XPATH_METER_INPUT@ != PROPERTY_XPATH_CONDOMINIUM_INPUT@,
        PROPERTY_XPATH_TAX_INPUT@ != PROPERTY_XPATH_CONDOMINIUM_INPUT@,
        PROPERTY_XPATH_MODEL_DROPDOWN@ != PROPERTY_XPATH_CATEGORY_DROPDOWN@,
        PROPERTY_XPATH_MODEL_DROPDOWN@ != PROPERTY_XPATH_PARKING_DROPDOWN@,
        PROPERTY_XPATH_CATEGORY_DROPDOWN@ != PROPERTY_XPATH_PARKING_DROPDOWN@,
{
    reveal_strlit("//span[contains(., 'Número de quartos') or contains(., 'Number of bedrooms') or contains(., 'Bedrooms') or contains(., 'Habitaciones') or contains(., 'Quartos')]/following::input[1]");
    reveal_strlit("//span[contains(., 'Número de banheiros') or contains(., 'Number of bathrooms') or contains(., 'Bathrooms') or contains(., 'Baños') or contains(., 'Banheiros')]/following::input[1]");
    reveal_strlit("//span[contains(., 'Preço') or contains(., 'Price') or contains(., 'Precio')]/following::input[1]");
    reveal_strlit("//input[@role='combobox'][@aria-autocomplete='list'][not(contains(@aria-label, 'Pesquisar'))][not(contains(@aria-label, 'Search'))]");
    reveal_strlit("//span[contains(., 'Descrição do imóvel') or contains(., 'Descrição') or contains(., 'Property description') or contains(., 'Description') or contains(., 'Descripción')]/following::textarea[1]");
    reveal_strlit("//span[contains(., 'Metros quadrados') or contains(., 'Área útil') or contains(., 'Square feet') or contains(., 'Square meters') or contains(., 'Metros cuadrados')]/following::input[1]");
    reveal_strlit("//span[contains(., 'Imposto') or contains(., 'Tax') or contains(., 'Impuesto')]/following::input[1]");
    reveal_strlit("//span[contains(., 'Condomínio') or contains(., 'Condo') or contains(., 'HOA fee') or contains(., 'HOA') or contains(., 'Condominio')]/following::input[1]");
    reveal_strlit("//label[@role='combobox'][contains(., 'venda ou locação') or contains(., 'Home for sale or rent') or contains(., 'Home for sale') or contains(., 'Property for rent') or contains(., 'Property for sale') or contains(., 'Listing type') or contains(., 'Alquiler')]");
    reveal_strlit("//label[@role='combobox'][contains(., 'Tipo de imóvel') or contains(., 'Home type') or contains(., 'Property type') or contains(., 'Tipo de propiedad')]");
    reveal_strlit("//label[@role='combobox'][contains(., 'Vagas de estacionamento') or contains(., 'Parking spaces') or contains(., 'Parking') or contains(., 'Plazas de aparcamiento') or contains(., 'Estacionamiento')]");
    assert(PROPERTY_XPATH_BEDROOM_INPUT@.len() == 181);
    assert(PROPERTY_XPATH_BATHROOM_INPUT@.len() == 180);
    assert(PROPERTY_XPATH_PRICE_INPUT@.len() == 97);
    assert(PROPERTY_XPATH_ADDRESS_INPUT@.len() == 131);
    assert(PROPERTY_XPATH_DESCRIPTION_TEXTAREA@.len() == 192);
    assert(PROPERTY_XPATH_METER_INPUT@.len() == 184);
    assert(PROPERTY_XPATH_TAX_INPUT@.len() == 99);
    assert(PROPERTY_XPATH_MODEL_DROPDOWN@.len() == 260);
    assert(PROPERTY_XPATH_CATEGORY_DROPDOWN@.len() == 152);
    assert(PROPERTY_XPATH_CONDOMINIUM_INPUT@.len() == 154);
    assert(PROPERTY_XPATH_PARKING_DROPDOWN@.len() == 199);
}

/// The vehicle form's text fields are found by different selectors, and so
/// are its dropdowns.
pub proof fn lemma_vehicle_selectors_distinct()
    ensures
        VEHICLE_XPATH_MAKE_INPUT@ != VEHICLE_XPATH_MODEL_INPUT@,
        VEHICLE_XPATH_MAKE_INPUT@ != VEHICLE_XPATH_MILEAGE_INPUT@,
        VEHICLE_XPATH_MAKE_INPUT@ != VEHICLE_XPATH_PRICE_INPUT@,
        VEHICLE_XPATH_MAKE_INPUT@ != VEHICLE_XPATH_LOCATION_INPUT@,
        VEHICLE_XPATH_MAKE_INPUT@ != VEHICLE_XPATH_DESCRIPTION_TEXTAREA@,
        VEHICLE_XPATH_MODEL_INPUT@ != VEHICLE_XPATH_MILEAGE_INPUT@,
        VEHICLE_XPATH_MODEL_INPUT@ != VEHICLE_XPATH_PRICE_INPUT@,
        VEHICLE_XPATH_MODEL_INPUT@ != VEHICLE_XPATH_LOCATION_INPUT@,
        VEHICLE_XPATH_MODEL_INPUT@ != VEHICLE_XPATH_DESCRIPTION_TEXTAREA@,
        VEHICLE_XPATH_MILEAGE_INPUT@ != VEHICLE_XPATH_PRICE_INPUT@,
        VEHICLE_XPATH_MILEAGE_INPUT@ != VEHICLE_XPATH_LOCATION_INPUT@,
        VEHICLE_XPATH_MILEAGE_INPUT@ != VEHICLE_XPATH_DESCRIPTION_TEXTAREA@,
        VEHICLE_XPATH_PRICE_INPUT@ != VEHICLE_XPATH_LOCATION_INPUT@,
        VEHICLE_XPATH_PRICE_INPUT@ != VEHICLE_XPATH_DESCRIPTION_TEXTAREA@,
        VEHICLE_XPATH_LOCATION_INPUT@ != VEHICLE_XPATH_DESCRIPTION_TEXTAREA@,
        VEHICLE_XPATH_TYPE_DROPDOWN@ != VEHICLE_XPATH_YEAR_DROPDOWN@,
        VEHICLE_XPATH_TYPE_DROPDOWN@ != VEHICLE_XPATH_MAKE_DROPDOWN@,
        VEHICLE_XPATH_TYPE_DROPDOWN@ != VEHICLE_XPATH_BODYSTYLE_DROPDOWN@,
        VEHICLE_XPATH_TYPE_DROPDOWN@ != VEHICLE_XPATH_CONDITION_DROPDOWN@,
        VEHICLE_XPATH_TYPE_DROPDOWN@ != VEHICLE_XPATH_FUEL_DROPDOWN@,
        VEHICLE_XPATH_YEAR_DROPDOWN@ != VEHICLE_XPATH_MAKE_DROPDOWN@,
        VEHICLE_XPATH_YEAR_DROPDOWN@ != VEHICLE_XPATH_BODYSTYLE_DROPDOWN@,
        VEHICLE_XPATH_YEAR_DROPDOWN@ != VEHICLE_XPATH_CONDITION_DROPDOWN@,
        VEHICLE_XPATH_YEAR_DROPDOWN@ != VEHICLE_XPATH_FUEL_DROPDOWN@,
        VEHICLE_XPATH_MAKE_DROPDOWN@ != VEHICLE_XPATH_BODYSTYLE_DROPDOWN@,
        VEHICLE_XPATH_MAKE_DROPDOWN@ != VEHICLE_XPATH_CONDITION_DROPDOWN@,
        VEHICLE_XPATH_MAKE_DROPDOWN@ != VEHICLE_XPATH_FUEL_DROPDOWN@,
        VEHICLE_XPATH_BODYSTYLE_DROPDOWN@ != VEHICLE_XPATH_CONDITION_DROPDOWN@,
        VEHICLE_XPATH_BODYSTYLE_DROPDOWN@ != VEHICLE_XPATH_FUEL_DROPDOWN@,
        VEHICLE_XPATH_CONDITION_DROPDOWN@ != VEHICLE_XPATH_FUEL_DROPDOWN@,
{
    reveal_strlit("//span[contains(., 'Fabricante') or contains(., 'Make') or contains(., 'Marca')]/following::input[1]");
    reveal_strlit("//span[contains(., 'Modelo') or contains(., 'Model')]/following::input[1]");
    reveal_strlit("//span[contains(., 'Quilometragem') or contains(., 'Mileage') or contains(., 'Kilometraje') or contains(., 'Odometer')]/following::input[1]");
    reveal_strlit("//span[contains(., 'Preço') or contains(., 'Price') or contains(., 'Precio')]/following::input[1]");
    reveal_strlit("//input[@role='combobox'][@aria-label='Localização' or @aria-label='Location' or @aria-label='Ubicación']");
    reveal_strlit("//span[contains(., 'Descrição') or contains(., 'Description') or contains(., 'Descripción')]/following::textarea[1]");
    reveal_strlit("//label[@role='combobox'][contains(., 'Tipo de veículo') or contains(., 'Vehicle type') or contains(., 'Type') or contains(., 'Tipo de vehículo')]");
    reveal_strlit("//label[@role='combobox'][contains(., 'Ano') or contains(., 'Year') or contains(., 'Año')]");
    reveal_strlit("//label[@role='combobox'][contains(., 'Fabricante') or contains(., 'Make') or contains(., 'Marca')]");
    reveal_strlit("//label[@role='combobox'][contains(., 'Estilo da carroceria') or contains(., 'Body style') or contains(., 'Body Style') or contains(., 'Carrocería')]");
    reveal_strlit("//label[@role='combobox'][contains(., 'Condição do veículo') or contains(., 'Condição') or contains(., 'Condition') or contains(., 'Condición')]");
    reveal_strlit("//label[@role='combobox'][contains(., 'Tipo de combustível') or contains(., 'Fuel type') or contains(., 'Fuel') or contains(., 'Combustible')]");
    assert(VEHICLE_XPATH_MAKE_INPUT@.len() == 100);
    assert(VEHICLE_XPATH_MODEL_INPUT@.len() == 73);
    assert(VEHICLE_XPATH_MILEAGE_INPUT@.len() == 139);
    assert(VEHICLE_XPATH_PRICE_INPUT@.len() == 97);
    assert(VEHICLE_XPATH_LOCATION_INPUT@.len() == 105);
    assert(VEHICLE_XPATH_TYPE_DROPDOWN@.len() == 146);
    assert(VEHICLE_XPATH_YEAR_DROPDOWN@.len() == 90);
    assert(VEHICLE_XPATH_MAKE_DROPDOWN@.len() == 99);
    assert(VEHICLE_XPATH_BODYSTYLE_DROPDOWN@.len() == 149);
    assert(VEHICLE_XPATH_CONDITION_DROPDOWN@.len() == 144);
    assert(VEHICLE_XPATH_DESCRIPTION_TEXTAREA@.len() == 115);
    assert(VEHICLE_XPATH_FUEL_DROPDOWN@.len() == 142);
}

} // verus!
