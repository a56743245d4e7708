//! Closed vocabularies of the interface: how the word panel is ranked and
//! which language the interface speaks, each with its table of names.
use vstd::prelude::*;
use crate::text::{contains_seq, str_contains, str_eq};

verus! {

/// How the word panel is ranked.
#[derive(Debug, Clone, Copy, PartialEq, Eq, Hash, Structural)]
pub enum PanelRankType {
    MostRecent,
    MostReview,
    MostLike,
}

/// The display name of each ranking.
pub open spec fn rank_label(r: PanelRankType) -> Seq<char> {
    match r {
        PanelRankType::MostRecent => "Most Recent"@,
        PanelRankType::MostReview => "Most Reviewed"@,
        PanelRankType::MostLike => "Most Liked"@,
    }
}

/// The ranking that a display name names, if any.
pub open spec fn rank_of_label(s: Seq<char>) -> Option<PanelRankType> {
    if s == "Most Recent"@ {
        Some(PanelRankType::MostRecent)
    } else if s == "Most Reviewed"@ {
        Some(PanelRankType::MostReview)
    } else if s == "Most Liked"@ {
        Some(PanelRankType::MostLike)
    } else {
        None
    }
}

impl PanelRankType {
    /// Every ranking, in declaration order.
    pub fn all() -> (r: Vec<PanelRankType>)
        ensures
            r@ == seq![PanelRankType::MostRecent, PanelRankType::MostReview, PanelRankType::MostLike],
    {
        vec![PanelRankType::MostRecent, PanelRankType::MostReview, PanelRankType::MostLike]
    }

    /// The display name of the ranking.
    pub fn label(&self) -> (r: &'static str)
        ensures
            r@ == rank_label(*self),
    {
        match self {
            PanelRankType::MostRecent => "Most Recent",
            PanelRankType::MostReview => "Most Reviewed",
            PanelRankType::MostLike => "Most Liked",
        }
    }

    /// The ranking with the display name `s`; `None` for any other text.
    pub fn from_label(s: &str) -> (r: Option<PanelRankType>)
        ensures
            r == rank_of_label(s@),
    {
        if str_eq(s, "Most Recent") {
            Some(PanelRankType::MostRecent)
        } else if str_eq(s, "Most Reviewed") {
            Some(PanelRankType::MostReview)
        } else if str_eq(s, "Most Liked") {
            Some(PanelRankType::MostLike)
        } else {
            None
        }
    }
}

/// Each ranking is read back from its display name.
pub proof fn lemma_rank_label_round_trip(r: PanelRankType)
    ensures
        rank_of_label(rank_label(r)) == Some(r),
{
    reveal_strlit("Most Recent");
    reveal_strlit("Most Reviewed");
    reveal_strlit("Most Liked");
    assert("Most Reviewed"@[7] != "Most Recent"@[7]);
    assert("Most Liked"@[5] != "Most Recent"@[5]);
    assert("Most Liked"@[5] != "Most Reviewed"@[5]);
}

/// The language that the interface speaks.
#[derive(Debug, Clone, Copy, PartialEq, Eq, Hash, Structural)]
pub enum ServerAcceptLangauge {
    SimpliedChinese,
    Japananese,
    English,
}

/// The short id of each language.
pub open spec fn lang_id(l: ServerAcceptLangauge) -> Seq<char> {
    match l {
        ServerAcceptLangauge::SimpliedChinese => "zh"@,
        ServerAcceptLangauge::Japananese => "jp"@,
        ServerAcceptLangauge::English => "en"@,
    }
}

/// The language that a short id names; English for any other text.
pub open spec fn lang_of_id(s: Seq<char>) -> ServerAcceptLangauge {
    if s == "zh"@ {
        ServerAcceptLangauge::SimpliedChinese
    } else if s == "jp"@ {
        ServerAcceptLangauge::Japananese
    } else {
        ServerAcceptLangauge::English
    }
}

/// The language asked for by an accept-language header value: Chinese where
/// it mentions "zh", else Japanese where it mentions "jp", else English, which
/// is also the language when the header is absent.
pub open spec fn lang_of_header(h: Option<Seq<char>>) -> ServerAcceptLangauge {
    match h {
        None => ServerAcceptLangauge::English,
        Some(s) => if contains_seq(s, "zh"@) {
            ServerAcceptLangauge::SimpliedChinese
        } else if contains_seq(s, "jp"@) {
            ServerAcceptLangauge::Japananese
        } else {
            ServerAcceptLangauge::English
        },
    }
}

impl Default for ServerAcceptLangauge {
    fn default() -> (r: Self)
        ensures
            r == ServerAcceptLangauge::English,
    {
        ServerAcceptLangauge::English
    }
}

impl ServerAcceptLangauge {
    /// The language named by the short id `s` ("zh", "jp" or "en"); English
    /// for any other text.
    pub fn from(s: &str) -> (r: ServerAcceptLangauge)
        ensures
            r == lang_of_id(s@),
    {
        if str_eq(s, "zh") {
            ServerAcceptLangauge::SimpliedChinese
        } else if str_eq(s, "jp") {
            ServerAcceptLangauge::Japananese
        } else {
            ServerAcceptLangauge::English
        }
    }

    /// The language named by a path parameter; never fails.
    pub fn from_param(param: &str) -> (r: ServerAcceptLangauge)
        ensures
            r == lang_of_id(param@),
    {
        ServerAcceptLangauge::from(param)
    }

    /// The language asked for by the first accept-language header value.
    pub fn from_request(accept_language: Option<&str>) -> (r: ServerAcceptLangauge)
        ensures
            r == lang_of_header(
                match accept_language {
                    Some(h) => Some(h@),
                    None => None,
                },
            ),
    {
        match accept_language {
            None => ServerAcceptLangauge::English,
            Some(h) => {
                if str_contains(h, "zh") {
                    ServerAcceptLangauge::SimpliedChinese
                } else if str_contains(h, "jp") {
                    ServerAcceptLangauge::Japananese
                } else {
                    ServerAcceptLangauge::English
                }
            },
        }
    }

    /// The short id of the language.
    pub fn to_string(&self) -> (r: String)
        ensures
            r@ == lang_id(*self),
    {
        match self {
            ServerAcceptLangauge::SimpliedChinese => String::from_str("zh"),
            ServerAcceptLangauge::Japananese => String::from_str("jp"),
            ServerAcceptLangauge::English => String::from_str("en"),
        }
    }
}

/// Each language is read back from its short id.
pub proof fn lemma_lang_id_round_trip(l: ServerAcceptLangauge)
    ensures
        lang_of_id(lang_id(l)) == l,
{
    reveal_strlit("zh");
    reveal_strlit("jp");
    reveal_strlit("en");
    assert("jp"@[0] != "zh"@[0]);
    assert("en"@[0] != "zh"@[0]);
    assert("en"@[0] != "jp"@[0]);
}

} // verus!
