use vstd::prelude::*;

verus! {

/// A MediaWiki XML export: site information and the exported pages.
#[derive(Debug, Clone)]
pub struct MediaWiki {
    pub version: String,
    pub lang: String,
    pub siteinfo: Option<SiteInfo>,
    pub pages: Vec<Page>,
}

#[derive(Debug, Clone)]
pub struct SiteInfo {
    pub sitename: Option<String>,
    pub dbname: Option<String>,
    pub base: Option<String>,
    pub generator: Option<String>,
    pub case_type: Option<String>,
    pub namespaces: Option<Namespaces>,
}

#[derive(Debug, Clone)]
pub struct Namespaces {
    pub namespaces: Vec<Namespace>,
}

#[derive(Debug, Clone)]
pub struct Namespace {
    pub name: Option<String>,
    pub key: Option<i32>,
    pub case_type: Option<String>,
}

#[derive(Debug, Clone)]
pub struct Page {
    pub title: String,
    pub ns: u32,
    pub id: u64,
    pub redirect: Option<Redirect>,
    pub restrictions: Option<String>,
    pub revisions: Option<Vec<Revision>>,
}

#[derive(Debug, Clone)]
pub struct Redirect {
    pub title: String,
}

#[derive(Debug, Clone)]
pub struct Revision {
    pub id: u64,
    pub parentid: Option<u64>,
    pub timestamp: String,
    pub contributor: Contributor,
    pub minor: Option<String>,
    pub comment: Option<Comment>,
    pub origin: u64,
    pub model: String,
    pub format: String,
    pub text: TextType,
    pub content: Option<Vec<Content>>,
    pub sha1: String,
}

#[derive(Debug, Clone)]
pub struct Contributor {
    pub username: Option<String>,
    pub id: Option<u64>,
    pub ip: Option<String>,
    pub deleted: Option<String>,
}

#[derive(Debug, Clone)]
pub struct Comment {
    pub value: Option<String>,
    pub deleted: Option<String>,
}

#[derive(Debug, Clone)]
pub struct TextType {
    pub value: Option<String>,
    pub xml_space: Option<String>,
    pub deleted: Option<String>,
    pub id: Option<String>,
    pub location: Option<String>,
    pub sha1: Option<String>,
    pub bytes: Option<u64>,
}

#[derive(Debug, Clone)]
pub struct Content {
    pub role: String,
    pub origin: u64,
    pub model: String,
    pub format: String,
    pub text: ContentTextType,
}

#[derive(Debug, Clone)]
pub struct ContentTextType {
    pub value: Option<String>,
    pub xml_space: Option<String>,
    pub deleted: Option<String>,
    pub location: Option<String>,
    pub sha1: Option<String>,
    pub bytes: Option<u64>,
}

/// The characters of an optional string.
pub open spec fn opt_chars(o: Option<String>) -> Option<Seq<char>> {
    match o {
        Some(s) => Some(s@),
        None => None,
    }
}

/// The article of an export: the text of the latest (last) revision of its
/// first page; none when there is no page, no revision or no text.
pub open spec fn article_text(mw: MediaWiki) -> Option<Seq<char>> {
    if mw.pages@.len() == 0 {
        None
    } else {
        match mw.pages@[0].revisions {
            None => None,
            Some(revs) => if revs@.len() == 0 {
                None
            } else {
                opt_chars(revs@.last().text.value)
            },
        }
    }
}

/// The article text of an export, if it has one.
pub fn get_article_text(mw: &MediaWiki) -> (r: Option<String>)
    ensures
        opt_chars(r) == article_text(*mw),
{
    if mw.pages.len() == 0 {
        return None;
    }
    match &mw.pages[0].revisions {
        None => None,
        Some(revs) => {
            if revs.len() == 0 {
                None
            } else {
                match &revs[revs.len() - 1].text.value {
                    Some(v) => Some(v.clone()),
                    None => None,
                }
            }
        },
    }
}

} // verus!
