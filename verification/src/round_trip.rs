//! Reading what was written gives back what was written.

use vstd::prelude::*;
use crate::error::{Failure, Fault, Owner};
use crate::rating::rating_code_round_trip;
use crate::json::{member_of, with_member, Json};
use crate::rating::serde_text::{rating_text_json, rating_text_round_trip};
use crate::rating::{rating_json, StoryRating};
use crate::response::{response_json, response_of_json, story_of_document, ResponseView};
use crate::status::status_round_trip;
use crate::story::{
    author_json, author_of_json, chapter_json, chapter_of_json, chapters_json, chapters_of_json,
    first_chapter_refused, story_json, story_of_json, AuthorView, ChapterView, StoryView,
};
use crate::vote::vote_round_trip;

verus! {

/// The length and the first letters of each wire name: enough to tell any
/// two of them apart.
proof fn wire_names()
    ensures
        "id"@.len() == 2,
        "url"@.len() == 3,
        "name"@.len() == 4 && "name"@[0] == 'n',
        "link"@.len() == 4 && "link"@[0] == 'l',
        "title"@.len() == 5 && "title"@[0] == 't',
        "image"@.len() == 5 && "image"@[0] == 'i',
        "views"@.len() == 5 && "views"@[0] == 'v',
        "words"@.len() == 5 && "words"@[0] == 'w',
        "likes"@.len() == 5 && "likes"@[0] == 'l',
        "story"@.len() == 5 && "story"@[0] == 's',
        "error"@.len() == 5 && "error"@[0] == 'e',
        "author"@.len() == 6 && "author"@[0] == 'a',
        "status"@.len() == 6 && "status"@[0] == 's',
        "comments"@.len() == 8 && "comments"@[0] == 'c' && "comments"@[1] == 'o',
        "dislikes"@.len() == 8 && "dislikes"@[0] == 'd',
        "chapters"@.len() == 8 && "chapters"@[0] == 'c' && "chapters"@[1] == 'h',
        "full_image"@.len() == 10,
        "description"@.len() == 11 && "description"@[0] == 'd',
        "total_views"@.len() == 11 && "total_views"@[0] == 't',
        "date_modified"@.len() == 13 && "date_modified"@[0] == 'd',
        "chapter_count"@.len() == 13 && "chapter_count"@[0] == 'c',
        "content_rating"@.len() == 14,
        "short_description"@.len() == 17,
        "content_rating_text"@.len() == 19,
{
    reveal_strlit("id");
    reveal_strlit("url");
    reveal_strlit("name");
    reveal_strlit("link");
    reveal_strlit("title");
    reveal_strlit("image");
    reveal_strlit("views");
    reveal_strlit("words");
    reveal_strlit("likes");
    reveal_strlit("story");
    reveal_strlit("error");
    reveal_strlit("author");
    reveal_strlit("status");
    reveal_strlit("comments");
    reveal_strlit("dislikes");
    reveal_strlit("chapters");
    reveal_strlit("full_image");
    reveal_strlit("description");
    reveal_strlit("total_views");
    reveal_strlit("date_modified");
    reveal_strlit("chapter_count");
    reveal_strlit("content_rating");
    reveal_strlit("short_description");
    reveal_strlit("content_rating_text");
}

/// Reading the value that stands for an author gives the author back.
pub proof fn author_round_trip(author: AuthorView)
    ensures
        author_of_json(author_json(author)) == Ok::<AuthorView, Fault>(author),
{
    wire_names();
}

/// Reading the value that stands for a chapter gives the chapter back,
/// wherever in a list it stands.
pub proof fn chapter_round_trip(chapter: ChapterView, owner: Owner)
    ensures
        chapter_of_json(chapter_json(chapter), owner) == Ok::<ChapterView, Fault>(chapter),
{
    wire_names();
}

/// Reading the values that stand for a list of chapters gives the list
/// back, in its order.
pub proof fn chapters_round_trip(chapters: Seq<ChapterView>)
    ensures
        chapters_of_json(chapters_json(chapters)) == Ok::<Seq<ChapterView>, Fault>(chapters),
{
    let items = chapters_json(chapters);
    assert forall|i: int| 0 <= i < items.len() implies chapter_of_json(
        #[trigger] items[i],
        Owner::Chapter(i as usize),
    ) == Ok::<ChapterView, Fault>(chapters[i]) by {
        chapter_round_trip(chapters[i], Owner::Chapter(i as usize));
    }
    assert forall|i: int| !first_chapter_refused(items, i) by {
        if 0 <= i < items.len() {
            assert(chapter_of_json(items[i], Owner::Chapter(i as usize)) is Ok);
        }
    }
    assert(chapters_of_json(items)->Ok_0 =~= chapters);
}

/// Reading the value that stands for a story gives the story back.
pub proof fn story_round_trip(story: StoryView)
    ensures
        story_of_json(story_json(story)) == Ok::<StoryView, Fault>(story),
{
    wire_names();
    author_round_trip(story.author);
    status_round_trip(story.status);
    rating_text_round_trip(story.content_rating);
    rating_code_round_trip(story.content_rating);
    vote_round_trip(story.likes);
    vote_round_trip(story.dislikes);
    chapters_round_trip(story.chapters);
}

/// Reading the document that stands for a response gives the response back.
pub proof fn response_round_trip(response: ResponseView)
    ensures
        response_of_json(response_json(response)) == Ok::<ResponseView, Fault>(response),
{
    wire_names();
    if let ResponseView::Story(story) = response {
        story_round_trip(story);
    }
}

/// The label that a story is written with is the label of its rating, beside
/// the numeric code of that rating.
pub proof fn label_is_written_from_the_rating(story: StoryView)
    ensures
        member_of(story_json(story), "content_rating_text"@) == Some(
            rating_text_json(story.content_rating),
        ),
        member_of(story_json(story), "content_rating"@) == Some(
            rating_json(story.content_rating),
        ),
{
    wire_names();
}

/// The label beside the rating is not held against it: a story that is read
/// from an object is read the same from that object with any other of the
/// three labels under `content_rating_text`.
pub proof fn label_is_not_held_against_the_rating(j: Json, label: StoryRating)
    requires
        story_of_json(j) is Ok,
    ensures
        story_of_json(with_member(j, "content_rating_text"@, rating_text_json(label)))
            == story_of_json(j),
{
    wire_names();
    rating_text_round_trip(label);
    crate::story::story_needs_every_member(j);
    let k = with_member(j, "content_rating_text"@, rating_text_json(label));
    assert(story_of_json(k) is Ok);
    assert(story_of_json(k)->Ok_0.chapters =~= story_of_json(j)->Ok_0.chapters);
}

/// What is written for a story read from a document differs from what the
/// story was read from at most in form: reading it gives the same story.
pub proof fn reading_what_was_written_is_stable(j: Json)
    requires
        story_of_json(j) is Ok,
    ensures
        story_of_json(story_json(story_of_json(j)->Ok_0)) == story_of_json(j),
{
    story_round_trip(story_of_json(j)->Ok_0);
}

/// The document that a story is written as comes to that story when it is
/// read.
pub proof fn written_story_reads_back(story: StoryView)
    ensures
        story_of_document(response_json(ResponseView::Story(story))) == Ok::<
            StoryView,
            Failure,
        >(story),
{
    response_round_trip(ResponseView::Story(story));
}

} // verus!
