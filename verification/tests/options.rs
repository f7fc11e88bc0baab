use fast_marketplace::options::{get_option_xpath, option_synonyms_of};

#[test]
fn option_xpath_for_house() {
    assert_eq!(get_option_xpath("Casa"), "//*[@role='option'][contains(., 'Casa') or contains(., 'House')]");
}

#[test]
fn option_xpath_for_rent_keeps_every_wording() {
    assert_eq!(
        get_option_xpath("Aluguel"),
        "//*[@role='option'][contains(., 'Aluguel') or contains(., 'rent') or contains(., 'Locação') or contains(., 'Aluguel') or contains(., 'For rent')]"
    );
}

#[test]
fn option_xpath_for_unknown_label() {
    assert_eq!(get_option_xpath("2023"), "//*[@role='option'][contains(., '2023')]");
}

#[test]
fn option_xpath_for_accented_labels() {
    assert_eq!(
        get_option_xpath("À venda"),
        "//*[@role='option'][contains(., 'À venda') or contains(., 'sale') or contains(., 'Venda') or contains(., 'For sale')]"
    );
    assert_eq!(get_option_xpath("Sedã"), "//*[@role='option'][contains(., 'Sedã') or contains(., 'Sedan')]");
}

#[test]
fn synonyms_table() {
    assert_eq!(option_synonyms_of("Carro/picape"), vec!["Car/Truck", "Car or pickup", "Carro", "Picape", "Carro/Caminhão"]);
    assert_eq!(option_synonyms_of("Outro"), vec!["Other"]);
    assert!(option_synonyms_of("casa").is_empty());
}
