use eulesia::ingest::sources::{all_sources, mfiles_fi, mfiles_sources, FetcherType};

#[test]
fn mfiles_source_follows_the_url_pattern() {
    let s = mfiles_fi("lappeenranta", "Lappeenranta");
    assert_eq!(s.url, "https://mfiles.lappeenranta.fi/Kokoukset/lappeenranta");
    assert_eq!(s.slug, "lappeenranta");
    assert_eq!(s.entity_name, "Lappeenranta");
    assert_eq!(s.country, "FI");
    assert_eq!(s.language, "fi");
    assert!(s.region.is_none());
    assert_eq!(s.fetcher_type, FetcherType::MFiles);
}

#[test]
fn mfiles_sources_are_lappeenranta_and_imatra() {
    let v = mfiles_sources();
    assert_eq!(v.len(), 2);
    assert_eq!(v[0].slug, "lappeenranta");
    assert_eq!(v[1].slug, "imatra");
    assert_eq!(v[1].entity_name, "Imatra");
    assert_eq!(v[1].url, "https://mfiles.imatra.fi/Kokoukset/imatra");
}

#[test]
fn all_sources_are_the_mfiles_sources() {
    let all = all_sources();
    let mfiles = mfiles_sources();
    assert_eq!(all.len(), mfiles.len());
    for (a, b) in all.iter().zip(mfiles.iter()) {
        assert_eq!(a.slug, b.slug);
        assert_eq!(a.url, b.url);
        assert_eq!(a.entity_name, b.entity_name);
    }
}

#[test]
fn source_slugs_are_distinct_and_every_source_is_finnish() {
    let all = all_sources();
    for (i, a) in all.iter().enumerate() {
        assert_eq!(a.country, "FI");
        assert_eq!(a.language, "fi");
        assert_eq!(a.url, format!("https://mfiles.{0}.fi/Kokoukset/{0}", a.slug));
        for b in all.iter().skip(i + 1) {
            assert_ne!(a.slug, b.slug);
        }
    }
}
