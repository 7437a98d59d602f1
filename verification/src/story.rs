//! A story with its author and chapters, and how each is read from and
//! written to a JSON value.

use vstd::prelude::*;
use crate::error::{after, Expected, Fault, Malformed, Owner};
use crate::field::{
    find, i64_at, optional_text_at, rating_at, rating_text_at, read_i64, read_optional_text,
    read_rating, read_rating_text, read_status, read_text, read_u32, read_u64, read_vote,
    status_at, text_at, u32_at, u64_at, vote_at,
};
use crate::json::{
    as_array, from_array, from_i64, from_text, from_u64, insert_member, is_object, json_of,
    jsons_of, member, member_of, new_object, null, Json,
};
use crate::rating::serde_text::rating_text_json;
use crate::rating::{rating_json, StoryRating};
use crate::status::{status_json, StoryStatus};
use crate::vote::vote_json;

verus! {

/// A Fimfiction ID.
pub type Id = u32;

/// The author of a story.
#[derive(Debug, Clone, PartialEq, Eq)]
pub struct Author {
    /// Author's ID.
    pub id: Id,
    /// Username of the author.
    pub name: String,
}

/// An `Author` as the contracts see it.
pub struct AuthorView {
    pub id: u32,
    pub name: Seq<char>,
}

impl View for Author {
    type V = AuthorView;

    open spec fn view(&self) -> AuthorView {
        AuthorView { id: self.id, name: self.name@ }
    }
}

/// A chapter of a story.
#[derive(Debug, Clone, PartialEq, Eq)]
pub struct Chapter {
    /// Chapter's ID.
    pub id: Id,
    /// Title of the chapter.
    pub title: String,
    /// The amount of words the chapter has.
    pub words: u64,
    /// The amount of views the chapter has.
    pub views: u32,
    /// Fimfiction URL to the story's chapter.
    pub link: String,
    /// Last chapter update, in seconds since the Unix epoch.
    pub date_modified: i64,
}

/// A `Chapter` as the contracts see it.
pub struct ChapterView {
    pub id: u32,
    pub title: Seq<char>,
    pub words: u64,
    pub views: u32,
    pub link: Seq<char>,
    pub date_modified: i64,
}

impl View for Chapter {
    type V = ChapterView;

    open spec fn view(&self) -> ChapterView {
        ChapterView {
            id: self.id,
            title: self.title@,
            words: self.words,
            views: self.views,
            link: self.link@,
            date_modified: self.date_modified,
        }
    }
}

/// All that the API tells of a story.
#[derive(Debug, Clone, PartialEq, Eq)]
pub struct Story {
    /// Unique story ID.
    pub id: Id,
    /// Title of the story.
    pub title: String,
    /// Fimfiction URL to the story.
    pub url: String,
    /// Summary of the story, as shown on story cards.
    pub short_description: String,
    /// Complete story description, as shown on the story's own page.
    pub description: String,
    /// Last story update, in seconds since the Unix epoch.
    pub date_modified: i64,
    /// Story cover image in thumbnail size if any.
    pub image: Option<String>,
    /// Story cover image in full size if any.
    pub full_image: Option<String>,
    /// The views the story has.
    pub views: u32,
    /// The total views the story has.
    pub total_views: u32,
    /// The amount of words the story has.
    pub words: u64,
    /// The amount of chapters the story has.
    pub chapter_count: u64,
    /// The amount of comments the story has.
    pub comments: u32,
    /// Author of the story.
    pub author: Author,
    /// Story completion status.
    pub status: StoryStatus,
    /// Rating given to the story. A document holds it twice, as a numeric
    /// code under `content_rating` and as a label under
    /// `content_rating_text`: the code is what is read, and the label is
    /// written from it.
    pub content_rating: StoryRating,
    /// The amount of likes the story has, if not disabled.
    pub likes: Option<u32>,
    /// The amount of dislikes the story has, if not disabled.
    pub dislikes: Option<u32>,
    /// Chapters of the story, in the order of the document.
    pub chapters: Vec<Chapter>,
}

/// A `Story` as the contracts see it.
pub struct StoryView {
    pub id: u32,
    pub title: Seq<char>,
    pub url: Seq<char>,
    pub short_description: Seq<char>,
    pub description: Seq<char>,
    pub date_modified: i64,
    pub image: Option<Seq<char>>,
    pub full_image: Option<Seq<char>>,
    pub views: u32,
    pub total_views: u32,
    pub words: u64,
    pub chapter_count: u64,
    pub comments: u32,
    pub author: AuthorView,
    pub status: StoryStatus,
    pub content_rating: StoryRating,
    pub likes: Option<u32>,
    pub dislikes: Option<u32>,
    pub chapters: Seq<ChapterView>,
}

/// The text that an optional string holds, if any.
pub open spec fn optional_text(text: Option<String>) -> Option<Seq<char>> {
    match text {
        Some(text) => Some(text@),
        None => None,
    }
}

/// The chapters of a list as the contracts see them, in order.
pub open spec fn chapter_views(chapters: Seq<Chapter>) -> Seq<ChapterView> {
    Seq::new(chapters.len(), |i: int| chapters[i]@)
}

impl View for Story {
    type V = StoryView;

    open spec fn view(&self) -> StoryView {
        StoryView {
            id: self.id,
            title: self.title@,
            url: self.url@,
            short_description: self.short_description@,
            description: self.description@,
            date_modified: self.date_modified,
            image: optional_text(self.image),
            full_image: optional_text(self.full_image),
            views: self.views,
            total_views: self.total_views,
            words: self.words,
            chapter_count: self.chapter_count,
            comments: self.comments,
            author: self.author@,
            status: self.status,
            content_rating: self.content_rating,
            likes: self.likes,
            dislikes: self.dislikes,
            chapters: chapter_views(self.chapters@),
        }
    }
}

/// The first thing wrong with a value that should be an author, if anything
/// is: it is no object, or else the first member, in the order `id`, `name`,
/// that is missing or refused.
pub open spec fn author_fault(j: Json) -> Option<Fault> {
    if !(j is Object) {
        Some(Fault::NotObject(Owner::Author))
    } else {
        let fault = after(None, u32_at(j, Owner::Author, "id"));
        let fault = after(fault, text_at(j, Owner::Author, "name"));
        fault
    }
}

/// The author that a value stands for, or what is wrong with it.
pub open spec fn author_of_json(j: Json) -> Result<AuthorView, Fault> {
    match author_fault(j) {
        Some(fault) => Err(fault),
        None => Ok(
            AuthorView {
                id: u32_at(j, Owner::Author, "id")->Ok_0,
                name: text_at(j, Owner::Author, "name")->Ok_0,
            },
        ),
    }
}

/// The value that stands for an author.
pub open spec fn author_json(author: AuthorView) -> Json {
    Json::Object(
        Map::empty().insert("id"@, Json::Int(author.id as int)).insert(
            "name"@,
            Json::Text(author.name),
        ),
    )
}

/// The first thing wrong with a value that should be a chapter, if anything
/// is: it is no object, or else the first member, in the order `id`,
/// `title`, `words`, `views`, `link`, `date_modified`, that is missing or
/// refused.
pub open spec fn chapter_fault(j: Json, owner: Owner) -> Option<Fault> {
    if !(j is Object) {
        Some(Fault::NotObject(owner))
    } else {
        let fault = after(None, u32_at(j, owner, "id"));
        let fault = after(fault, text_at(j, owner, "title"));
        let fault = after(fault, u64_at(j, owner, "words"));
        let fault = after(fault, u32_at(j, owner, "views"));
        let fault = after(fault, text_at(j, owner, "link"));
        let fault = after(fault, i64_at(j, owner, "date_modified"));
        fault
    }
}

/// The chapter that a value stands for, or what is wrong with it. `owner`
/// says which chapter of the list it is.
pub open spec fn chapter_of_json(j: Json, owner: Owner) -> Result<ChapterView, Fault> {
    match chapter_fault(j, owner) {
        Some(fault) => Err(fault),
        None => Ok(
            ChapterView {
                id: u32_at(j, owner, "id")->Ok_0,
                title: text_at(j, owner, "title")->Ok_0,
                words: u64_at(j, owner, "words")->Ok_0,
                views: u32_at(j, owner, "views")->Ok_0,
                link: text_at(j, owner, "link")->Ok_0,
                date_modified: i64_at(j, owner, "date_modified")->Ok_0,
            },
        ),
    }
}

/// The value that stands for a chapter.
pub open spec fn chapter_json(chapter: ChapterView) -> Json {
    Json::Object(
        Map::empty().insert("id"@, Json::Int(chapter.id as int)).insert(
            "title"@,
            Json::Text(chapter.title),
        ).insert("words"@, Json::Int(chapter.words as int)).insert(
            "views"@,
            Json::Int(chapter.views as int),
        ).insert("link"@, Json::Text(chapter.link)).insert(
            "date_modified"@,
            Json::Int(chapter.date_modified as int),
        ),
    )
}

/// Whether the item at `i` of a list stands for no chapter.
pub open spec fn chapter_refused(items: Seq<Json>, i: int) -> bool {
    0 <= i < items.len() && chapter_of_json(items[i], Owner::Chapter(i as usize)) is Err
}

/// Whether the item at `i` is the first of a list that stands for no chapter.
pub open spec fn first_chapter_refused(items: Seq<Json>, i: int) -> bool {
    chapter_refused(items, i) && forall|k: int| 0 <= k < i ==> !chapter_refused(items, k)
}

/// The chapters that a list of values stands for, in its order; where an
/// item stands for none, what is wrong with the first such item.
pub open spec fn chapters_of_json(items: Seq<Json>) -> Result<Seq<ChapterView>, Fault> {
    if exists|i: int| first_chapter_refused(items, i) {
        let first = choose|i: int| first_chapter_refused(items, i);
        Err(chapter_of_json(items[first], Owner::Chapter(first as usize))->Err_0)
    } else {
        Ok(
            Seq::new(
                items.len(),
                |i: int| chapter_of_json(items[i], Owner::Chapter(i as usize))->Ok_0,
            ),
        )
    }
}

/// The values that stand for a list of chapters, in its order.
pub open spec fn chapters_json(chapters: Seq<ChapterView>) -> Seq<Json> {
    Seq::new(chapters.len(), |i: int| chapter_json(chapters[i]))
}

/// The author of a story object: its member `author`, read as an author.
pub open spec fn author_at(j: Json) -> Result<AuthorView, Fault> {
    match member_of(j, "author"@) {
        Some(m) => author_of_json(m),
        None => Err(Fault::Missing(Owner::Story, "author")),
    }
}

/// The chapters of a story object: none where it has no member `chapters`,
/// else those that the list under it stands for.
pub open spec fn chapters_at(j: Json) -> Result<Seq<ChapterView>, Fault> {
    match member_of(j, "chapters"@) {
        None => Ok(Seq::empty()),
        Some(Json::Array(items)) => chapters_of_json(items),
        Some(_) => Err(Fault::Invalid(Owner::Story, "chapters", Expected::List)),
    }
}

/// The first thing wrong with a value that should be a story, if anything
/// is: it is no object, or else the first member, in the order in which
/// `Story` lists them, that is missing or refused. The label under
/// `content_rating_text`, which stands before `content_rating`, must be
/// there and be one of the three labels; which one it is does not matter.
pub open spec fn story_fault(j: Json) -> Option<Fault> {
    if !(j is Object) {
        Some(Fault::NotObject(Owner::Story))
    } else {
        let fault = after(None, u32_at(j, Owner::Story, "id"));
        let fault = after(fault, text_at(j, Owner::Story, "title"));
        let fault = after(fault, text_at(j, Owner::Story, "url"));
        let fault = after(fault, text_at(j, Owner::Story, "short_description"));
        let fault = after(fault, text_at(j, Owner::Story, "description"));
        let fault = after(fault, i64_at(j, Owner::Story, "date_modified"));
        let fault = after(fault, optional_text_at(j, Owner::Story, "image"));
        let fault = after(fault, optional_text_at(j, Owner::Story, "full_image"));
        let fault = after(fault, u32_at(j, Owner::Story, "views"));
        let fault = after(fault, u32_at(j, Owner::Story, "total_views"));
        let fault = after(fault, u64_at(j, Owner::Story, "words"));
        let fault = after(fault, u64_at(j, Owner::Story, "chapter_count"));
        let fault = after(fault, u32_at(j, Owner::Story, "comments"));
        let fault = after(fault, author_at(j));
        let fault = after(fault, status_at(j, Owner::Story, "status"));
        let fault = after(fault, rating_text_at(j, Owner::Story, "content_rating_text"));
        let fault = after(fault, rating_at(j, Owner::Story, "content_rating"));
        let fault = after(fault, vote_at(j, Owner::Story, "likes"));
        let fault = after(fault, vote_at(j, Owner::Story, "dislikes"));
        let fault = after(fault, chapters_at(j));
        fault
    }
}

/// The story that a value stands for, or what is wrong with it. Members
/// that a story does not have are passed over.
pub open spec fn story_of_json(j: Json) -> Result<StoryView, Fault> {
    match story_fault(j) {
        Some(fault) => Err(fault),
        None => Ok(
            StoryView {
                id: u32_at(j, Owner::Story, "id")->Ok_0,
                title: text_at(j, Owner::Story, "title")->Ok_0,
                url: text_at(j, Owner::Story, "url")->Ok_0,
                short_description: text_at(j, Owner::Story, "short_description")->Ok_0,
                description: text_at(j, Owner::Story, "description")->Ok_0,
                date_modified: i64_at(j, Owner::Story, "date_modified")->Ok_0,
                image: optional_text_at(j, Owner::Story, "image")->Ok_0,
                full_image: optional_text_at(j, Owner::Story, "full_image")->Ok_0,
                views: u32_at(j, Owner::Story, "views")->Ok_0,
                total_views: u32_at(j, Owner::Story, "total_views")->Ok_0,
                words: u64_at(j, Owner::Story, "words")->Ok_0,
                chapter_count: u64_at(j, Owner::Story, "chapter_count")->Ok_0,
                comments: u32_at(j, Owner::Story, "comments")->Ok_0,
                author: author_at(j)->Ok_0,
                status: status_at(j, Owner::Story, "status")->Ok_0,
                content_rating: rating_at(j, Owner::Story, "content_rating")->Ok_0,
                likes: vote_at(j, Owner::Story, "likes")->Ok_0,
                dislikes: vote_at(j, Owner::Story, "dislikes")->Ok_0,
                chapters: chapters_at(j)->Ok_0,
            },
        ),
    }
}

/// The wire value of an optional text: `null` for none.
pub open spec fn optional_text_json(text: Option<Seq<char>>) -> Json {
    match text {
        Some(text) => Json::Text(text),
        None => Json::Null,
    }
}

/// The value that stands for a story: an object with every member of
/// `Story` under its wire name, the chapters as a list, and under
/// `content_rating_text` the label of the story's rating.
pub open spec fn story_json(story: StoryView) -> Json {
    Json::Object(
        Map::empty().insert("id"@, Json::Int(story.id as int)).insert(
            "title"@,
            Json::Text(story.title),
        ).insert("url"@, Json::Text(story.url)).insert(
            "short_description"@,
            Json::Text(story.short_description),
        ).insert("description"@, Json::Text(story.description)).insert(
            "date_modified"@,
            Json::Int(story.date_modified as int),
        ).insert("image"@, optional_text_json(story.image)).insert(
            "full_image"@,
            optional_text_json(story.full_image),
        ).insert("views"@, Json::Int(story.views as int)).insert(
            "total_views"@,
            Json::Int(story.total_views as int),
        ).insert("words"@, Json::Int(story.words as int)).insert(
            "chapter_count"@,
            Json::Int(story.chapter_count as int),
        ).insert("comments"@, Json::Int(story.comments as int)).insert(
            "author"@,
            author_json(story.author),
        ).insert("status"@, status_json(story.status)).insert(
            "content_rating_text"@,
            rating_text_json(story.content_rating),
        ).insert("content_rating"@, rating_json(story.content_rating)).insert(
            "likes"@,
            vote_json(story.likes),
        ).insert("dislikes"@, vote_json(story.dislikes)).insert(
            "chapters"@,
            Json::Array(chapters_json(story.chapters)),
        ),
    )
}

/// The wire value of an optional text.
fn write_optional_text(text: &Option<String>) -> (v: serde_json::Value)
    ensures
        json_of(v) == optional_text_json(optional_text(*text)),
{
    match text {
        Some(text) => from_text(text.clone()),
        None => null(),
    }
}

impl Author {
    /// Reads an author from a value.
    pub fn from_value(v: &serde_json::Value) -> (r: Result<Author, Malformed>)
        ensures
            match r {
                Ok(author) => author_of_json(json_of(*v)) == Ok::<AuthorView, Fault>(author@),
                Err(e) => author_of_json(json_of(*v)) == Err::<AuthorView, Fault>(e.fault)
                    && e.source is None,
            },
    {
        if !is_object(v) {
            return Err(Malformed::shape(Fault::NotObject(Owner::Author)));
        }
        let id = read_u32(v, Owner::Author, "id")?;
        let name = read_text(v, Owner::Author, "name")?;
        Ok(Author { id, name })
    }

    /// Writes the author as a value.
    pub fn to_value(&self) -> (v: serde_json::Value)
        ensures
            json_of(v) == author_json(self@),
    {
        let mut object = new_object();
        insert_member(&mut object, "id", from_u64(self.id as u64));
        insert_member(&mut object, "name", from_text(self.name.clone()));
        object
    }
}

impl Chapter {
    /// Reads the chapter at place `index` of the list from a value.
    pub fn from_value(v: &serde_json::Value, index: usize) -> (r: Result<Chapter, Malformed>)
        ensures
            match r {
                Ok(chapter) => chapter_of_json(json_of(*v), Owner::Chapter(index)) == Ok::<
                    ChapterView,
                    Fault,
                >(chapter@),
                Err(e) => chapter_of_json(json_of(*v), Owner::Chapter(index)) == Err::<
                    ChapterView,
                    Fault,
                >(e.fault) && e.source is None,
            },
    {
        let owner = Owner::Chapter(index);
        if !is_object(v) {
            return Err(Malformed::shape(Fault::NotObject(owner)));
        }
        let id = read_u32(v, owner, "id")?;
        let title = read_text(v, owner, "title")?;
        let words = read_u64(v, owner, "words")?;
        let views = read_u32(v, owner, "views")?;
        let link = read_text(v, owner, "link")?;
        let date_modified = read_i64(v, owner, "date_modified")?;
        Ok(Chapter { id, title, words, views, link, date_modified })
    }

    /// Writes the chapter as a value.
    pub fn to_value(&self) -> (v: serde_json::Value)
        ensures
            json_of(v) == chapter_json(self@),
    {
        let mut object = new_object();
        insert_member(&mut object, "id", from_u64(self.id as u64));
        insert_member(&mut object, "title", from_text(self.title.clone()));
        insert_member(&mut object, "words", from_u64(self.words));
        insert_member(&mut object, "views", from_u64(self.views as u64));
        insert_member(&mut object, "link", from_text(self.link.clone()));
        insert_member(&mut object, "date_modified", from_i64(self.date_modified));
        object
    }
}

/// Reads the chapters that a list of values stands for.
pub fn read_chapters(items: &Vec<serde_json::Value>) -> (r: Result<Vec<Chapter>, Malformed>)
    ensures
        match r {
            Ok(chapters) => chapters_of_json(jsons_of(items@)) == Ok::<Seq<ChapterView>, Fault>(
                chapter_views(chapters@),
            ),
            Err(e) => chapters_of_json(jsons_of(items@)) == Err::<Seq<ChapterView>, Fault>(
                e.fault,
            ) && e.source is None,
        },
{
    let ghost jsons = jsons_of(items@);
    let mut chapters: Vec<Chapter> = Vec::new();
    let mut i: usize = 0;
    while i < items.len()
        invariant
            jsons == jsons_of(items@),
            i <= items.len(),
            chapters.len() == i,
            forall|k: int|
                0 <= k < i ==> chapter_of_json(#[trigger] jsons[k], Owner::Chapter(k as usize))
                    == Ok::<ChapterView, Fault>(chapters[k]@),
        decreases items.len() - i,
    {
        match Chapter::from_value(&items[i], i) {
            Ok(chapter) => {
                chapters.push(chapter);
            },
            Err(e) => {
                proof {
                    assert(jsons[i as int] == json_of(items[i as int]));
                    assert(first_chapter_refused(jsons, i as int));
                    let first = choose|k: int| first_chapter_refused(jsons, k);
                    assert(first == i) by {
                        if first < i {
                            assert(!chapter_refused(jsons, first));
                        } else if first > i {
                            assert(!chapter_refused(jsons, i as int));
                        }
                    }
                }
                return Err(e);
            },
        }
        i += 1;
    }
    proof {
        assert forall|k: int| !first_chapter_refused(jsons, k) by {
            if 0 <= k < jsons.len() {
                assert(chapter_of_json(jsons[k], Owner::Chapter(k as usize)) is Ok);
            }
        }
        assert(chapters_of_json(jsons)->Ok_0 =~= chapter_views(chapters@));
    }
    Ok(chapters)
}

/// Writes a list of chapters as values, in its order.
pub fn write_chapters(chapters: &Vec<Chapter>) -> (values: Vec<serde_json::Value>)
    ensures
        jsons_of(values@) == chapters_json(chapter_views(chapters@)),
{
    let mut values: Vec<serde_json::Value> = Vec::new();
    let mut i: usize = 0;
    while i < chapters.len()
        invariant
            i <= chapters.len(),
            values.len() == i,
            forall|k: int| 0 <= k < i ==> json_of(#[trigger] values[k]) == chapter_json(chapters[k]@),
        decreases chapters.len() - i,
    {
        values.push(chapters[i].to_value());
        i += 1;
    }
    assert(jsons_of(values@) =~= chapters_json(chapter_views(chapters@)));
    values
}

impl Story {
    /// Reads a story from a value: every member by its codec, an absent
    /// `image` or `full_image` as none, an absent `chapters` as no chapters.
    /// Other members of the value are passed over.
    pub fn from_value(v: &serde_json::Value) -> (r: Result<Story, Malformed>)
        ensures
            match r {
                Ok(story) => story_of_json(json_of(*v)) == Ok::<StoryView, Fault>(story@),
                Err(e) => story_of_json(json_of(*v)) == Err::<StoryView, Fault>(e.fault)
                    && e.source is None,
            },
    {
        let owner = Owner::Story;
        if !is_object(v) {
            return Err(Malformed::shape(Fault::NotObject(owner)));
        }
        let id = read_u32(v, owner, "id")?;
        let title = read_text(v, owner, "title")?;
        let url = read_text(v, owner, "url")?;
        let short_description = read_text(v, owner, "short_description")?;
        let description = read_text(v, owner, "description")?;
        let date_modified = read_i64(v, owner, "date_modified")?;
        let image = read_optional_text(v, owner, "image")?;
        let full_image = read_optional_text(v, owner, "full_image")?;
        let views = read_u32(v, owner, "views")?;
        let total_views = read_u32(v, owner, "total_views")?;
        let words = read_u64(v, owner, "words")?;
        let chapter_count = read_u64(v, owner, "chapter_count")?;
        let comments = read_u32(v, owner, "comments")?;
        let author = Author::from_value(find(v, owner, "author")?)?;
        let status = read_status(v, owner, "status")?;
        let _ = read_rating_text(v, owner, "content_rating_text")?;
        let content_rating = read_rating(v, owner, "content_rating")?;
        let likes = read_vote(v, owner, "likes")?;
        let dislikes = read_vote(v, owner, "dislikes")?;
        let chapters = match member(v, "chapters") {
            None => Vec::new(),
            Some(list) => match as_array(list) {
                Some(items) => read_chapters(items)?,
                None => {
                    return Err(
                        Malformed::shape(Fault::Invalid(owner, "chapters", Expected::List)),
                    );
                },
            },
        };
        assert(chapter_views(chapters@) =~= chapters_at(json_of(*v))->Ok_0);
        Ok(
            Story {
                id,
                title,
                url,
                short_description,
                description,
                date_modified,
                image,
                full_image,
                views,
                total_views,
                words,
                chapter_count,
                comments,
                author,
                status,
                content_rating,
                likes,
                dislikes,
                chapters,
            },
        )
    }

    /// Writes the story as a value.
    pub fn to_value(&self) -> (v: serde_json::Value)
        ensures
            json_of(v) == story_json(self@),
    {
        let mut object = new_object();
        insert_member(&mut object, "id", from_u64(self.id as u64));
        insert_member(&mut object, "title", from_text(self.title.clone()));
        insert_member(&mut object, "url", from_text(self.url.clone()));
        insert_member(&mut object, "short_description", from_text(self.short_description.clone()));
        insert_member(&mut object, "description", from_text(self.description.clone()));
        insert_member(&mut object, "date_modified", from_i64(self.date_modified));
        insert_member(&mut object, "image", write_optional_text(&self.image));
        insert_member(&mut object, "full_image", write_optional_text(&self.full_image));
        insert_member(&mut object, "views", from_u64(self.views as u64));
        insert_member(&mut object, "total_views", from_u64(self.total_views as u64));
        insert_member(&mut object, "words", from_u64(self.words));
        insert_member(&mut object, "chapter_count", from_u64(self.chapter_count));
        insert_member(&mut object, "comments", from_u64(self.comments as u64));
        insert_member(&mut object, "author", self.author.to_value());
        insert_member(&mut object, "status", self.status.serialize());
        insert_member(
            &mut object,
            "content_rating_text",
            crate::rating::serde_text::serialize(&self.content_rating),
        );
        insert_member(&mut object, "content_rating", self.content_rating.serialize());
        insert_member(&mut object, "likes", crate::vote::serialize(&self.likes));
        insert_member(&mut object, "dislikes", crate::vote::serialize(&self.dislikes));
        insert_member(&mut object, "chapters", from_array(write_chapters(&self.chapters)));
        object
    }
}

/// A value stands for a story only if it is an object and every member of a
/// story is accepted by its codec.
pub proof fn story_needs_every_member(j: Json)
    requires
        story_of_json(j) is Ok,
    ensures
        j is Object,
        u32_at(j, Owner::Story, "id") is Ok,
        text_at(j, Owner::Story, "title") is Ok,
        text_at(j, Owner::Story, "url") is Ok,
        text_at(j, Owner::Story, "short_description") is Ok,
        text_at(j, Owner::Story, "description") is Ok,
        i64_at(j, Owner::Story, "date_modified") is Ok,
        optional_text_at(j, Owner::Story, "image") is Ok,
        optional_text_at(j, Owner::Story, "full_image") is Ok,
        u32_at(j, Owner::Story, "views") is Ok,
        u32_at(j, Owner::Story, "total_views") is Ok,
        u64_at(j, Owner::Story, "words") is Ok,
        u64_at(j, Owner::Story, "chapter_count") is Ok,
        u32_at(j, Owner::Story, "comments") is Ok,
        author_at(j) is Ok,
        status_at(j, Owner::Story, "status") is Ok,
        rating_text_at(j, Owner::Story, "content_rating_text") is Ok,
        rating_at(j, Owner::Story, "content_rating") is Ok,
        vote_at(j, Owner::Story, "likes") is Ok,
        vote_at(j, Owner::Story, "dislikes") is Ok,
        chapters_at(j) is Ok,
{
}

/// The rating of a story is read from its numeric member alone.
pub proof fn rating_is_read_from_its_code(j: Json)
    requires
        story_of_json(j) is Ok,
    ensures
        Ok::<StoryRating, Fault>(story_of_json(j)->Ok_0.content_rating) == rating_at(
            j,
            Owner::Story,
            "content_rating",
        ),
{
}

/// A story without the member `chapters` has no chapters.
pub proof fn absent_chapters_are_none(j: Json)
    requires
        story_of_json(j) is Ok,
        member_of(j, "chapters"@) is None,
    ensures
        story_of_json(j)->Ok_0.chapters == Seq::<ChapterView>::empty(),
{
}

} // verus!
