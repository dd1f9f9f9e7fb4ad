//! The course list endpoint.

use crate::api::common::{PageView, Pageable, PaginatedList};
use crate::json::{
    array_text, decimal, escaped_all_of_plain, joined, string_text, write_decimal, write_string, ToJson,
};
use vstd::prelude::*;
use vstd::string::StringExecFns;

verus! {

/// How far a course has come on its way to the public.
#[derive(Clone, Copy, Debug, PartialEq, Eq, Structural)]
pub enum CourseStatus {
    Draft,
    Published,
    Public,
}

impl CourseStatus {
    /// The name of the status, as it is written in JSON.
    pub open spec fn label(self) -> Seq<char> {
        match self {
            CourseStatus::Draft => "Draft"@,
            CourseStatus::Published => "Published"@,
            CourseStatus::Public => "Public"@,
        }
    }

    /// Returns the name of the status.
    pub fn name(&self) -> (text: &'static str)
        ensures
            text@ == self.label(),
    {
        match self {
            CourseStatus::Draft => "Draft",
            CourseStatus::Published => "Published",
            CourseStatus::Public => "Public",
        }
    }
}

impl View for CourseStatus {
    type V = CourseStatus;

    open spec fn view(&self) -> CourseStatus {
        *self
    }
}

impl ToJson for CourseStatus {
    open spec fn json_of(v: CourseStatus) -> Seq<char> {
        string_text(v.label())
    }

    fn write_json(&self, out: &mut String) {
        write_string(self.name(), out);
    }
}

/// What the course list shows of one course. `last_update` is in seconds since
/// the Unix epoch.
#[derive(Clone, Debug, PartialEq, Eq)]
pub struct CoursePreview {
    pub id: u32,
    pub title: String,
    pub short_description: String,
    pub last_update: u64,
    pub status: CourseStatus,
}

/// What a `CoursePreview` stands for.
pub struct CoursePreviewView {
    pub id: nat,
    pub title: Seq<char>,
    pub short_description: Seq<char>,
    pub last_update: nat,
    pub status: CourseStatus,
}

impl View for CoursePreview {
    type V = CoursePreviewView;

    open spec fn view(&self) -> CoursePreviewView {
        CoursePreviewView {
            id: self.id as nat,
            title: self.title@,
            short_description: self.short_description@,
            last_update: self.last_update as nat,
            status: self.status,
        }
    }
}

impl ToJson for CoursePreview {
    open spec fn json_of(v: CoursePreviewView) -> Seq<char> {
        "{\"id\":"@ + decimal(v.id) + ",\"title\":"@ + string_text(v.title)
            + ",\"short_description\":"@ + string_text(v.short_description) + ",\"last_update\":"@
            + decimal(v.last_update) + ",\"status\":"@ + CourseStatus::json_of(v.status) + "}"@
    }

    fn write_json(&self, out: &mut String) {
        out.append("{\"id\":");
        write_decimal(self.id as u64, out);
        out.append(",\"title\":");
        write_string(self.title.as_str(), out);
        out.append(",\"short_description\":");
        write_string(self.short_description.as_str(), out);
        out.append(",\"last_update\":");
        write_decimal(self.last_update, out);
        out.append(",\"status\":");
        self.status.write_json(out);
        out.append("}");
    }
}

/// The number that every page gives as the size of the whole list.
pub const COURSE_COUNT: u32 = 101;

/// The one course that every page holds.
pub open spec fn listed_course() -> CoursePreviewView {
    CoursePreviewView {
        id: 10,
        title: "Hello World"@,
        short_description: "Hello World Short description"@,
        last_update: 1551303867,
        status: CourseStatus::Published,
    }
}

/// The answer of the course list to `request`: the request's `page` and `limit`
/// as they came, and the same count and the same single course whatever was
/// asked for. The request does not select anything.
pub open spec fn course_page(request: Pageable) -> PageView<CoursePreviewView> {
    PageView {
        page: request.page as nat,
        limit: request.limit as nat,
        max: COURSE_COUNT as nat,
        data: seq![listed_course()],
    }
}

/// Answers a request for a page of the course list.
pub fn get_courses(pageable: Pageable) -> (list: PaginatedList<CoursePreview>)
    ensures
        list@ == course_page(pageable),
{
    let course = CoursePreview {
        id: 10,
        title: String::from_str("Hello World"),
        short_description: String::from_str("Hello World Short description"),
        last_update: 1551303867,
        status: CourseStatus::Published,
    };
    let mut data: Vec<CoursePreview> = Vec::new();
    data.push(course);
    let list = PaginatedList { page: pageable.page, limit: pageable.limit, max: COURSE_COUNT, data };
    assert(list@.data == seq![listed_course()]);
    list
}

/// Every page repeats the `page` and `limit` of its request.
pub proof fn course_page_echoes_request(request: Pageable)
    ensures
        course_page(request).page == request.page,
        course_page(request).limit == request.limit,
{
}

/// The count and the courses of a page do not depend on the request.
pub proof fn course_page_ignores_request(first: Pageable, second: Pageable)
    ensures
        course_page(first).max == 101,
        course_page(first).max == course_page(second).max,
        course_page(first).data == course_page(second).data,
{
}

/// A page holds one course, so it keeps to its limit unless the limit is zero.
pub proof fn course_page_within_limit(request: Pageable)
    ensures
        course_page(request).data.len() == 1,
        course_page(request).within_limit() <==> request.limit >= 1,
{
}

/// The text of the listed course.
pub proof fn listed_course_text()
    ensures
        CoursePreview::json_of(listed_course())
            == "{\"id\":10,\"title\":\"Hello World\",\"short_description\":\"Hello World Short description\",\"last_update\":1551303867,\"status\":\"Published\"}"@,
{
    let title = string_text("Hello World"@);
    let description = string_text("Hello World Short description"@);
    let status = string_text("Published"@);
    assert(title == "\"Hello World\""@) by {
        reveal_strlit("Hello World");
        reveal_strlit("\"Hello World\"");
        escaped_all_of_plain("Hello World"@);
    }
    assert(description == "\"Hello World Short description\""@) by {
        reveal_strlit("Hello World Short description");
        reveal_strlit("\"Hello World Short description\"");
        escaped_all_of_plain("Hello World Short description"@);
    }
    assert(status == "\"Published\""@) by {
        reveal_strlit("Published");
        reveal_strlit("\"Published\"");
        escaped_all_of_plain("Published"@);
    }
    assert(decimal(10) == "10"@) by {
        reveal_strlit("10");
        reveal_with_fuel(decimal, 2);
    }
    assert(decimal(1551303867) == "1551303867"@) by {
        reveal_strlit("1551303867");
        reveal_with_fuel(decimal, 10);
    }
    reveal_strlit("\"Hello World\"");
    reveal_strlit("\"Hello World Short description\"");
    reveal_strlit("\"Published\"");
    reveal_strlit("10");
    reveal_strlit("1551303867");
    reveal_strlit("{\"id\":");
    reveal_strlit(",\"title\":");
    reveal_strlit(",\"short_description\":");
    reveal_strlit(",\"last_update\":");
    reveal_strlit(",\"status\":");
    reveal_strlit("}");
    reveal_strlit(
        "{\"id\":10,\"title\":\"Hello World\",\"short_description\":\"Hello World Short description\",\"last_update\":1551303867,\"status\":\"Published\"}",
    );
}

/// The text of a page of the course list: the numerals of the request's `page`
/// and `limit`, and around them the same characters for every request.
pub proof fn course_page_text(request: Pageable)
    ensures
        PaginatedList::<CoursePreview>::json_of(course_page(request)) == "{\"page\":"@ + decimal(
            request.page as nat,
        ) + ",\"limit\":"@ + decimal(request.limit as nat)
            + ",\"max\":101,\"data\":[{\"id\":10,\"title\":\"Hello World\",\"short_description\":\"Hello World Short description\",\"last_update\":1551303867,\"status\":\"Published\"}]}"@,
{
    let course =
        "{\"id\":10,\"title\":\"Hello World\",\"short_description\":\"Hello World Short description\",\"last_update\":1551303867,\"status\":\"Published\"}"@;
    let rest =
        ",\"max\":101,\"data\":[{\"id\":10,\"title\":\"Hello World\",\"short_description\":\"Hello World Short description\",\"last_update\":1551303867,\"status\":\"Published\"}]}"@;
    let texts = course_page(request).data.map_values(
        |item: CoursePreviewView| CoursePreview::json_of(item),
    );
    assert(array_text(texts) == seq!['['] + course + seq![']']) by {
        listed_course_text();
        assert(texts.len() == 1);
        assert(joined(texts) == texts[0]);
    }
    assert(decimal(101) == "101"@) by {
        reveal_strlit("101");
        reveal_with_fuel(decimal, 3);
    }
    assert(",\"max\":"@ + "101"@ + ",\"data\":"@ + (seq!['['] + course + seq![']']) + "}"@ == rest)
        by {
        reveal_strlit(",\"max\":");
        reveal_strlit("101");
        reveal_strlit(",\"data\":");
        reveal_strlit("}");
        reveal_strlit(
            "{\"id\":10,\"title\":\"Hello World\",\"short_description\":\"Hello World Short description\",\"last_update\":1551303867,\"status\":\"Published\"}",
        );
        reveal_strlit(
            ",\"max\":101,\"data\":[{\"id\":10,\"title\":\"Hello World\",\"short_description\":\"Hello World Short description\",\"last_update\":1551303867,\"status\":\"Published\"}]}",
        );
    }
    let head = "{\"page\":"@ + decimal(request.page as nat) + ",\"limit\":"@ + decimal(
        request.limit as nat,
    );
    assert(PaginatedList::<CoursePreview>::json_of(course_page(request)) == head + (",\"max\":"@
        + "101"@ + ",\"data\":"@ + (seq!['['] + course + seq![']']) + "}"@));
}

} // verus!
