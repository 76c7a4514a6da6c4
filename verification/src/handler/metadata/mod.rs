//! The metadata endpoints: who may call them, which kind of link was given, and
//! what is asked of the language model.
use vstd::prelude::*;
use regex::Regex;
use crate::text::{contains_seq, str_contains};

verus! {

/// The kinds of link the metadata endpoint treats differently.
pub enum Platform {
    TikTok,
    YouTube,
    Maps,
    Instagram,
    Substack,
    Facebook,
    Generic,
}

pub open spec fn is_maps_link(url: Seq<char>) -> bool {
    ||| contains_seq(url, "maps.google"@)
    ||| contains_seq(url, "apple.com/maps"@)
    ||| contains_seq(url, "maps.apple"@)
    ||| contains_seq(url, "goo.gl/maps"@)
    ||| contains_seq(url, "maps.app.goo.gl"@)
    ||| contains_seq(url, "maps.google.com"@)
    ||| contains_seq(url, "google.com/maps"@)
    ||| contains_seq(url, "googleusercontent.com"@)
}

/// The kind of a link, by the first of these that it mentions: TikTok, YouTube,
/// a map, Instagram, Substack, Facebook; any other link is generic.
pub open spec fn platform_of(url: Seq<char>) -> Platform {
    if contains_seq(url, "tiktok.com"@) || contains_seq(url, "vt.tiktok.com"@) {
        Platform::TikTok
    } else if contains_seq(url, "youtube.com"@) || contains_seq(url, "youtu.be"@) {
        Platform::YouTube
    } else if is_maps_link(url) {
        Platform::Maps
    } else if contains_seq(url, "instagram.com"@) {
        Platform::Instagram
    } else if contains_seq(url, "substack.com"@) {
        Platform::Substack
    } else if contains_seq(url, "facebook.com"@) || contains_seq(url, "fb.watch"@) {
        Platform::Facebook
    } else {
        Platform::Generic
    }
}

/// Which kind of link `url` is: the first of TikTok, YouTube, a map, Instagram,
/// Substack and Facebook that it mentions, else generic.
pub fn classify_link(url: &str) -> (p: Platform)
    ensures
        p == platform_of(url@),
        contains_seq(url@, "tiktok.com"@) ==> p == Platform::TikTok,
        !contains_seq(url@, "tiktok.com"@) && !contains_seq(url@, "vt.tiktok.com"@) && (contains_seq(
            url@,
            "youtube.com"@,
        ) || contains_seq(url@, "youtu.be"@)) ==> p == Platform::YouTube,
        !contains_seq(url@, "tiktok.com"@) && !contains_seq(url@, "vt.tiktok.com"@)
            && !contains_seq(url@, "youtube.com"@) && !contains_seq(url@, "youtu.be"@) && (contains_seq(url@, "maps.google"@) || contains_seq(url@, "apple.com/maps"@)
            || contains_seq(url@, "maps.apple"@) || contains_seq(url@, "goo.gl/maps"@)
            || contains_seq(url@, "maps.app.goo.gl"@) || contains_seq(url@, "maps.google.com"@)
            || contains_seq(url@, "google.com/maps"@) || contains_seq(url@, "googleusercontent.com"@))
            ==> p == Platform::Maps,
        !contains_seq(url@, "tiktok.com"@) && !contains_seq(url@, "vt.tiktok.com"@)
            && !contains_seq(url@, "youtube.com"@) && !contains_seq(url@, "youtu.be"@) && !(contains_seq(url@, "maps.google"@) || contains_seq(url@, "apple.com/maps"@)
            || contains_seq(url@, "maps.apple"@) || contains_seq(url@, "goo.gl/maps"@)
            || contains_seq(url@, "maps.app.goo.gl"@) || contains_seq(url@, "maps.google.com"@)
            || contains_seq(url@, "google.com/maps"@) || contains_seq(url@, "googleusercontent.com"@))
            && contains_seq(url@, "instagram.com"@) ==> p == Platform::Instagram,
        !contains_seq(url@, "tiktok.com"@) && !contains_seq(url@, "vt.tiktok.com"@)
            && !contains_seq(url@, "youtube.com"@) && !contains_seq(url@, "youtu.be"@) && !(contains_seq(url@, "maps.google"@) || contains_seq(url@, "apple.com/maps"@)
            || contains_seq(url@, "maps.apple"@) || contains_seq(url@, "goo.gl/maps"@)
            || contains_seq(url@, "maps.app.goo.gl"@) || contains_seq(url@, "maps.google.com"@)
            || contains_seq(url@, "google.com/maps"@) || contains_seq(url@, "googleusercontent.com"@))
            && !contains_seq(url@, "instagram.com"@) && contains_seq(url@, "substack.com"@) ==> p
            == Platform::Substack,
        !contains_seq(url@, "tiktok.com"@) && !contains_seq(url@, "vt.tiktok.com"@)
            && !contains_seq(url@, "youtube.com"@) && !contains_seq(url@, "youtu.be"@) && !(contains_seq(url@, "maps.google"@) || contains_seq(url@, "apple.com/maps"@)
            || contains_seq(url@, "maps.apple"@) || contains_seq(url@, "goo.gl/maps"@)
            || contains_seq(url@, "maps.app.goo.gl"@) || contains_seq(url@, "maps.google.com"@)
            || contains_seq(url@, "google.com/maps"@) || contains_seq(url@, "googleusercontent.com"@))
            && !contains_seq(url@, "instagram.com"@) && !contains_seq(url@, "substack.com"@) && (
        contains_seq(url@, "facebook.com"@) || contains_seq(url@, "fb.watch"@)) ==> p
            == Platform::Facebook,
        !contains_seq(url@, "tiktok.com"@) && !contains_seq(url@, "vt.tiktok.com"@)
            && !contains_seq(url@, "youtube.com"@) && !contains_seq(url@, "youtu.be"@) && !(contains_seq(url@, "maps.google"@) || contains_seq(url@, "apple.com/maps"@)
            || contains_seq(url@, "maps.apple"@) || contains_seq(url@, "goo.gl/maps"@)
            || contains_seq(url@, "maps.app.goo.gl"@) || contains_seq(url@, "maps.google.com"@)
            || contains_seq(url@, "google.com/maps"@) || contains_seq(url@, "googleusercontent.com"@))
            && !contains_seq(url@, "instagram.com"@) && !contains_seq(url@, "substack.com"@)
            && !contains_seq(url@, "facebook.com"@) && !contains_seq(url@, "fb.watch"@) ==> p
            == Platform::Generic,
{
    if str_contains(url, "tiktok.com") || str_contains(url, "vt.tiktok.com") {
        Platform::TikTok
    } else if str_contains(url, "youtube.com") || str_contains(url, "youtu.be") {
        Platform::YouTube
    } else if str_contains(url, "maps.google") || str_contains(url, "apple.com/maps")
        || str_contains(url, "maps.apple") || str_contains(url, "goo.gl/maps")
        || str_contains(url, "maps.app.goo.gl") || str_contains(url, "maps.google.com")
        || str_contains(url, "google.com/maps") || str_contains(url, "googleusercontent.com") {
        Platform::Maps
    } else if str_contains(url, "instagram.com") {
        Platform::Instagram
    } else if str_contains(url, "substack.com") {
        Platform::Substack
    } else if str_contains(url, "facebook.com") || str_contains(url, "fb.watch") {
        Platform::Facebook
    } else {
        Platform::Generic
    }
}

/// A link that mentions YouTube and not TikTok is a YouTube link, and a link
/// that mentions TikTok is a TikTok link, whatever else it mentions.
pub proof fn lemma_link_kinds(url: Seq<char>)
    ensures
        contains_seq(url, "tiktok.com"@) ==> platform_of(url) == Platform::TikTok,
        !contains_seq(url, "tiktok.com"@) && !contains_seq(url, "vt.tiktok.com"@) && (contains_seq(
            url,
            "youtube.com"@,
        ) || contains_seq(url, "youtu.be"@)) ==> platform_of(url) == Platform::YouTube,
        !contains_seq(url, "tiktok.com"@) && !contains_seq(url, "vt.tiktok.com"@)
            && !contains_seq(url, "youtube.com"@) && !contains_seq(url, "youtu.be"@)
            && contains_seq(url, "google.com/maps"@) ==> platform_of(url) == Platform::Maps,
{
}

/// The instructions given to the language model, up to the link being described.
pub open spec fn prompt_head() -> Seq<char> {
    "You are a Senior Editor for a knowledge database. \n        Your job is to convert raw social media metadata into a **dense, high-value encyclopedia entry** (approx. 3 sentences).\n\n        ### RULES\n        1. **Subject-First:** Never start with 'This video', 'The author', or 'Here is'. Start with the main topic (e.g., 'Kiribati', 'Quantum Mechanics', 'The Eiffel Tower').\n        2. **Hallucinate Context:** Use your internal knowledge to explain *why* the topic is important. If the title is 'Ferrari vs Red Bull', explain the F1 rivalry, don't just say 'it is a race'.\n        3. **Translate implicitly:** If the input is non-English, output the summary in English without mentioning it was translated.\n\n        ### EXAMPLES (Follow this style)\n\n        Input: { Title: '2026 නව වසර මුලින්ම උදාවන රට', Metadata: 'Top 10 Srilanka' }\n        Output: The Pacific nation of Kiribati, specifically Kiritimati (Christmas Island), is historically the first inhabited place to welcome the New Year due to its position on the International Date Line. This content contrasts early celebrants in Oceania with the last locations in American Samoa, highlighting the 26-hour span of global festivities.\n\n        Input: { Title: 'Formula 1 Q3 Highlights Monaco', Metadata: 'Verstappen Pole' }\n        Output: Max Verstappen secured pole position at the Monaco Grand Prix, a circuit notorious for its narrow streets where qualifying position is critical for race victory. The session likely highlights his precision driving through the swimming pool chicane, crucial for maintaining Red Bull's championship dominance against rivals like Ferrari.\n\n        Input: { Title: 'Shared Location', Metadata: 'Lat: 48.8584, Lon: 2.2945' }\n        Output: These coordinates point to the Eiffel Tower in Paris, France, a global cultural icon and architectural marvel of the 19th century. Located on the Champ de Mars, it serves as a central landmark for the city and a historic symbol of French industrial ingenuity.\n\n        ### YOUR TASK\n        Input: { URL: '"@
}

fn head() -> (s: &'static str)
    ensures
        s@ == prompt_head(),
{
    "You are a Senior Editor for a knowledge database. \n        Your job is to convert raw social media metadata into a **dense, high-value encyclopedia entry** (approx. 3 sentences).\n\n        ### RULES\n        1. **Subject-First:** Never start with 'This video', 'The author', or 'Here is'. Start with the main topic (e.g., 'Kiribati', 'Quantum Mechanics', 'The Eiffel Tower').\n        2. **Hallucinate Context:** Use your internal knowledge to explain *why* the topic is important. If the title is 'Ferrari vs Red Bull', explain the F1 rivalry, don't just say 'it is a race'.\n        3. **Translate implicitly:** If the input is non-English, output the summary in English without mentioning it was translated.\n\n        ### EXAMPLES (Follow this style)\n\n        Input: { Title: '2026 නව වසර මුලින්ම උදාවන රට', Metadata: 'Top 10 Srilanka' }\n        Output: The Pacific nation of Kiribati, specifically Kiritimati (Christmas Island), is historically the first inhabited place to welcome the New Year due to its position on the International Date Line. This content contrasts early celebrants in Oceania with the last locations in American Samoa, highlighting the 26-hour span of global festivities.\n\n        Input: { Title: 'Formula 1 Q3 Highlights Monaco', Metadata: 'Verstappen Pole' }\n        Output: Max Verstappen secured pole position at the Monaco Grand Prix, a circuit notorious for its narrow streets where qualifying position is critical for race victory. The session likely highlights his precision driving through the swimming pool chicane, crucial for maintaining Red Bull's championship dominance against rivals like Ferrari.\n\n        Input: { Title: 'Shared Location', Metadata: 'Lat: 48.8584, Lon: 2.2945' }\n        Output: These coordinates point to the Eiffel Tower in Paris, France, a global cultural icon and architectural marvel of the 19th century. Located on the Champ de Mars, it serves as a central landmark for the city and a historic symbol of French industrial ingenuity.\n\n        ### YOUR TASK\n        Input: { URL: '"
}

/// The request for a short encyclopedia entry about a link, given its URL, its
/// title (`Unknown` when there is none) and its raw metadata.
pub open spec fn summary_prompt_spec(
    url: Seq<char>,
    title: Option<Seq<char>>,
    metadata: Seq<char>,
) -> Seq<char> {
    prompt_head() + url + "', Title: '"@ + (match title {
        Some(t) => t,
        None => "Unknown"@,
    }) + "', Raw Metadata: "@ + metadata + " }\n        Output:"@
}

pub fn summary_prompt(url: &str, title: Option<&str>, metadata: &str) -> (p: String)
    ensures
        p@ == summary_prompt_spec(
            url@,
            match title {
                Some(t) => Some(t@),
                None => None,
            },
            metadata@,
        ),
        p@ == prompt_head() + url@ + "', Title: '"@ + (match title {
            Some(t) => t@,
            None => "Unknown"@,
        }) + "', Raw Metadata: "@ + metadata@ + " }\n        Output:"@,
{
    let mut p = String::from_str(head());
    p.append(url);
    p.append("', Title: '");
    match title {
        Some(t) => p.append(t),
        None => p.append("Unknown"),
    }
    p.append("', Raw Metadata: ");
    p.append(metadata);
    p.append(" }\n        Output:");
    p
}

/// The `content` of a page's `<meta name="description" ...>` tag, as the regular
/// expression `<meta name="description" content="([^"]+)">` finds it first.
pub uninterp spec fn meta_description_of(html: Seq<char>) -> Option<Seq<char>>;

/// `Regex::captures` of the description pattern, its first group as a string.
#[verifier::external_body]
fn capture_description(html: &str) -> (r: Option<String>)
    ensures
        match r {
            Some(d) => meta_description_of(html@) == Some(d@),
            None => meta_description_of(html@) is None,
        },
{
    let re = Regex::new(r#"<meta name="description" content="([^"]+)">"#).unwrap();
    re.captures(html).and_then(|cap| cap.get(1)).map(|m| m.as_str().to_string())
}

/// The description that a YouTube page declares for its video.
pub fn youtube_description(html: &str) -> (r: Option<String>)
    ensures
        match r {
            Some(d) => meta_description_of(html@) == Some(d@),
            None => meta_description_of(html@) is None,
        },
{
    capture_description(html)
}

} // verus!
