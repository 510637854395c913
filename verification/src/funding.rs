//! The early sponsors, shown as a grid of logos.

use vstd::prelude::*;

verus! {

/// How many sponsors the grid shows.
pub const SPONSOR_COUNT: usize = 8;

/// A sponsor and the host's handle of its logo.
pub struct Sponsor {
    pub name: String,
    /// Which of the host's loaded pictures is the logo, if any.
    pub image: Option<usize>,
}

/// A [`Sponsor`] as contracts see it.
pub ghost struct SponsorView {
    pub name: Seq<char>,
    pub image: Option<usize>,
}

impl View for Sponsor {
    type V = SponsorView;

    open spec fn view(&self) -> SponsorView {
        SponsorView { name: self.name@, image: self.image }
    }
}

impl Sponsor {
    pub fn new(name: &str, image: Option<usize>) -> (r: Sponsor)
        ensures
            r@ == (SponsorView { name: name@, image }),
    {
        Sponsor { name: name.to_owned(), image }
    }
}

/// The names of the sponsors, in the order of the grid.
pub open spec fn sponsor_names() -> Seq<Seq<char>> {
    seq![
        "Electronic Frontier Foundation"@,
        "US Bureau of Democracy, Human Rights and Labor"@,
        "International Broadcasting Bureau"@,
        "Internews"@,
        "Human Rights Watch"@,
        "University of Cambridge"@,
        "Google"@,
        "NLnet"@,
    ]
}

/// The grid of sponsors. It has no state that changes.
pub struct FundingScene {
    pub sponsors: Vec<Sponsor>,
}

impl View for FundingScene {
    type V = Seq<SponsorView>;

    open spec fn view(&self) -> Seq<SponsorView> {
        self.sponsors@.map_values(|s: Sponsor| s@)
    }
}

/// The sponsors as the scene lists them: the names in order, and for each
/// its place in the list as the handle of its logo.
pub open spec fn sponsor_list() -> Seq<SponsorView> {
    Seq::new(
        SPONSOR_COUNT as nat,
        |i: int| SponsorView { name: sponsor_names()[i], image: Some(i as usize) },
    )
}

impl FundingScene {
    pub fn new() -> (r: FundingScene)
        ensures
            r@ == sponsor_list(),
    {
        let mut sponsors: Vec<Sponsor> = Vec::new();
        sponsors.push(Sponsor::new("Electronic Frontier Foundation", Some(0)));
        sponsors.push(Sponsor::new("US Bureau of Democracy, Human Rights and Labor", Some(1)));
        sponsors.push(Sponsor::new("International Broadcasting Bureau", Some(2)));
        sponsors.push(Sponsor::new("Internews", Some(3)));
        sponsors.push(Sponsor::new("Human Rights Watch", Some(4)));
        sponsors.push(Sponsor::new("University of Cambridge", Some(5)));
        sponsors.push(Sponsor::new("Google", Some(6)));
        sponsors.push(Sponsor::new("NLnet", Some(7)));
        let r = FundingScene { sponsors };
        assert(r@ =~= sponsor_list());
        r
    }
}

} // verus!
