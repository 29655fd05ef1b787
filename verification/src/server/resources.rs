//! A resource whose content is fixed text.

use crate::protocol::payloads::{
    contents_view, ResourceContent, ResourceContentView, ResourceView,
};
use crate::server::capabilities::Resource;
use crate::text::join2;
use vstd::prelude::*;

verus! {

/// A resource that always reads as the same plain text.
pub struct StaticTextResource {
    name: String,
    description: String,
    content: String,
}

/// The mathematical value of a [`StaticTextResource`].
pub struct StaticTextView {
    pub name: Seq<char>,
    pub description: Seq<char>,
    pub content: Seq<char>,
}

impl View for StaticTextResource {
    type V = StaticTextView;

    closed spec fn view(&self) -> StaticTextView {
        StaticTextView {
            name: self.name@,
            description: self.description@,
            content: self.content@,
        }
    }
}

/// The descriptor of a static text as registered under `uri`.
pub open spec fn static_text_descriptor(resource: StaticTextView, uri: Seq<char>) -> ResourceView {
    ResourceView {
        uri,
        name: resource.name,
        description: Some(resource.description),
        mime_type: Some("text/plain"@),
    }
}

/// What a static text reads as: one piece of plain text, tagged with a URI
/// made of the scheme `static` and the name of the resource.
pub open spec fn static_text_contents(resource: StaticTextView) -> Seq<ResourceContentView> {
    seq![
        ResourceContentView::Text {
            uri: "static://"@ + resource.name,
            text: resource.content,
            mime_type: Some("text/plain"@),
        },
    ]
}

impl StaticTextResource {
    /// A resource named `name`, described by `description`, that reads as
    /// `content`.
    pub fn new(name: String, description: String, content: String) -> (r: StaticTextResource)
        ensures
            r@ == (StaticTextView { name: name@, description: description@, content: content@ }),
    {
        StaticTextResource { name, description, content }
    }
}

impl Resource for StaticTextResource {
    fn definition(&self, uri: String) -> (descriptor: crate::protocol::payloads::Resource)
        ensures
            descriptor@ == static_text_descriptor(self@, uri@),
    {
        crate::protocol::payloads::Resource {
            uri,
            name: self.name.clone(),
            description: Some(self.description.clone()),
            mime_type: Some("text/plain".to_owned()),
        }
    }

    fn read(&self) -> (outcome: Result<Vec<ResourceContent>, String>)
        ensures
            outcome matches Ok(contents) && contents_view(contents) == static_text_contents(
                self@,
            ),
    {
        let mut contents: Vec<ResourceContent> = Vec::new();
        contents.push(
            ResourceContent::Text {
                uri: join2("static://", self.name.as_str()),
                text: self.content.clone(),
                mime_type: Some("text/plain".to_owned()),
            },
        );
        assert(contents_view(contents) =~= static_text_contents(self@));
        Ok(contents)
    }
}

} // verus!
