//! The configured sources of council minutes.
//!
//! For now only the M-Files entities are listed.

use vstd::prelude::*;

verus! {

/// The kinds of minute-publishing systems a source can be fetched from.
#[derive(PartialEq, Eq, Structural, Clone, Copy, Debug)]
pub enum FetcherType {
    /// An M-Files meeting archive.
    MFiles,
}

/// A place the importer fetches minutes from.
pub struct MinuteSource {
    pub entity_name: String,
    pub slug: String,
    pub fetcher_type: FetcherType,
    pub url: String,
    pub country: String,
    pub language: String,
    pub region: Option<String>,
}

pub struct MinuteSourceView {
    pub entity_name: Seq<char>,
    pub slug: Seq<char>,
    pub fetcher_type: FetcherType,
    pub url: Seq<char>,
    pub country: Seq<char>,
    pub language: Seq<char>,
    pub region: Option<Seq<char>>,
}

impl View for MinuteSource {
    type V = MinuteSourceView;

    open spec fn view(&self) -> MinuteSourceView {
        MinuteSourceView {
            entity_name: self.entity_name@,
            slug: self.slug@,
            fetcher_type: self.fetcher_type,
            url: self.url@,
            country: self.country@,
            language: self.language@,
            region: self.region.deep_view(),
        }
    }
}

/// The archive address of a Finnish M-Files entity:
/// `https://mfiles.<slug>.fi/Kokoukset/<slug>`.
pub open spec fn mfiles_url(slug: Seq<char>) -> Seq<char> {
    "https://mfiles."@ + slug + ".fi/Kokoukset/"@ + slug
}

/// The source of a Finnish M-Files entity: fetched with the M-Files fetcher
/// from its archive address, in Finland, in Finnish, with no region.
pub open spec fn spec_mfiles_fi(slug: Seq<char>, entity_name: Seq<char>) -> MinuteSourceView {
    MinuteSourceView {
        entity_name,
        slug,
        fetcher_type: FetcherType::MFiles,
        url: mfiles_url(slug),
        country: "FI"@,
        language: "fi"@,
        region: None,
    }
}

/// Builds a Finnish M-Files source for the given slug and display name.
pub fn mfiles_fi(slug: &str, entity_name: &str) -> (s: MinuteSource)
    ensures
        s@ == spec_mfiles_fi(slug@, entity_name@),
{
    let mut url = String::from_str("https://mfiles.");
    url.append(slug);
    url.append(".fi/Kokoukset/");
    url.append(slug);
    MinuteSource {
        entity_name: String::from_str(entity_name),
        slug: String::from_str(slug),
        fetcher_type: FetcherType::MFiles,
        url,
        country: String::from_str("FI"),
        language: String::from_str("fi"),
        region: None,
    }
}

/// The M-Files entities, in order.
pub open spec fn spec_mfiles_sources() -> Seq<MinuteSourceView> {
    seq![
        spec_mfiles_fi("lappeenranta"@, "Lappeenranta"@),
        spec_mfiles_fi("imatra"@, "Imatra"@),
    ]
}

/// The M-Files sources. The Imatra address is best-effort: it is to be
/// confirmed on the first run.
pub fn mfiles_sources() -> (v: Vec<MinuteSource>)
    ensures
        v@.map_values(|s: MinuteSource| s@) == spec_mfiles_sources(),
{
    let mut v: Vec<MinuteSource> = Vec::new();
    v.push(mfiles_fi("lappeenranta", "Lappeenranta"));
    v.push(mfiles_fi("imatra", "Imatra"));
    assert(v@.map_values(|s: MinuteSource| s@) =~= spec_mfiles_sources());
    v
}

/// The full list of sources the importer processes on each run: for now, the
/// M-Files sources.
pub fn all_sources() -> (v: Vec<MinuteSource>)
    ensures
        v@.map_values(|s: MinuteSource| s@) == spec_mfiles_sources(),
{
    let mut sources: Vec<MinuteSource> = Vec::new();
    let mut mfiles = mfiles_sources();
    let ghost listed = mfiles@;
    sources.append(&mut mfiles);
    assert(sources@ =~= listed);
    sources
}

/// Every configured source is a Finnish M-Files archive: fetched with the
/// M-Files fetcher from `https://mfiles.<slug>.fi/Kokoukset/<slug>`, in
/// country "FI" and language "fi", with no region.
pub proof fn law_sources_follow_the_mfiles_pattern()
    ensures
        forall|i: int|
            0 <= i < spec_mfiles_sources().len() ==> {
                let s = #[trigger] spec_mfiles_sources()[i];
                &&& s.fetcher_type == FetcherType::MFiles
                &&& s.url == mfiles_url(s.slug)
                &&& s.country == "FI"@
                &&& s.language == "fi"@
                &&& s.region is None
            },
{
}

/// No two configured sources share a slug, so each archive is fetched once
/// per run.
pub proof fn law_source_slugs_are_distinct()
    ensures
        forall|i: int, j: int|
            0 <= i < j < spec_mfiles_sources().len() ==> (#[trigger] spec_mfiles_sources()[i]).slug
                != (#[trigger] spec_mfiles_sources()[j]).slug,
{
    reveal_strlit("lappeenranta");
    reveal_strlit("imatra");
    assert("lappeenranta"@.len() != "imatra"@.len());
}

} // verus!
