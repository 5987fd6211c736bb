//! Typed schema.org documents: the site-wide `WebSite` and
//! `EducationalOrganization` graph and, per exercise, a `LearningResource`
//! with its `BreadcrumbList`. The application serialises them as JSON-LD.

use crate::exercises::{anchor_text, breadcrumb_level_label, breadcrumb_text, ExerciseInfo};
use crate::layout::origin;
use crate::text::push_decimal;
use vstd::prelude::*;

verus! {

/// The `@type` of a node.
#[derive(Debug, Clone, Copy, PartialEq, Eq)]
pub enum SchemaType {
    WebSite,
    EducationalOrganization,
    LearningResource,
    EducationalAudience,
    BreadcrumbList,
    ListItem,
}

/// The `learningResourceType` of an exercise page.
#[derive(Debug, Clone, Copy, PartialEq, Eq)]
pub enum LearningResourceType {
    Exercise,
}

/// The `educationalRole` of the audience.
#[derive(Debug, Clone, Copy, PartialEq, Eq)]
pub enum EducationalRole {
    Student,
}

/// The `WebSite` node.
#[derive(Debug)]
pub struct WebSite {
    pub schema_type: SchemaType,
    pub id: &'static str,
    pub url: &'static str,
    pub name: &'static str,
    pub description: &'static str,
    pub in_language: &'static str,
    /// `@id` of the publisher node.
    pub publisher: &'static str,
}

/// The `EducationalOrganization` node.
#[derive(Debug)]
pub struct EducationalOrganization {
    pub schema_type: SchemaType,
    pub id: &'static str,
    pub name: &'static str,
    pub url: &'static str,
    pub same_as: [&'static str; 2],
}

/// The site-wide document: `@context` and its two-node `@graph`.
#[derive(Debug)]
pub struct SiteDocument {
    pub context: &'static str,
    pub website: WebSite,
    pub organization: EducationalOrganization,
}

/// The `audience` of a learning resource.
#[derive(Debug)]
pub struct EducationalAudience {
    pub schema_type: SchemaType,
    pub educational_role: EducationalRole,
}

/// The `LearningResource` node of an exercise page.
#[derive(Debug)]
pub struct LearningResource {
    pub schema_type: SchemaType,
    pub id: String,
    pub url: String,
    pub name: &'static str,
    pub description: &'static str,
    pub in_language: &'static str,
    pub is_accessible_for_free: bool,
    pub learning_resource_type: LearningResourceType,
    pub educational_level: &'static str,
    pub audience: EducationalAudience,
    pub license: &'static str,
    /// `@id` of the site node.
    pub is_part_of: &'static str,
}

/// One step of a breadcrumb trail; the last one has no `item` link.
#[derive(Debug)]
pub struct ListItem {
    pub schema_type: SchemaType,
    pub position: u8,
    pub name: &'static str,
    pub item: Option<String>,
}

/// The `BreadcrumbList` node of an exercise page.
#[derive(Debug)]
pub struct BreadcrumbList {
    pub schema_type: SchemaType,
    pub item_list_element: Vec<ListItem>,
}

/// The per-exercise document: `@context` and its two-node `@graph`.
#[derive(Debug)]
pub struct ExerciseDocument {
    pub context: &'static str,
    pub resource: LearningResource,
    pub breadcrumb: BreadcrumbList,
}

/// The text of an optional string.
pub open spec fn opt_text(s: Option<String>) -> Option<Seq<char>> {
    match s {
        Some(t) => Some(t@),
        None => None,
    }
}

/// Site-wide publisher and website identity emitted on every HTML page.
pub fn site_document() -> (r: SiteDocument)
    ensures
        r.context == "https://schema.org",
        r.website.schema_type == SchemaType::WebSite,
        r.website.id == "https://elementary.training/#site",
        r.website.url == "https://elementary.training/",
        r.website.name == "Oefeningen Basisschool",
        r.website.description
            == "Gratis huiswerk middel voor de basisschool. Geen account, geen tracking, volledig offline na het eerste bezoek.",
        r.website.in_language == "nl-BE",
        r.website.publisher == "https://elementary.training/#publisher",
        r.organization.schema_type == SchemaType::EducationalOrganization,
        r.organization.id == "https://elementary.training/#publisher",
        r.organization.name == "Plabayo",
        r.organization.url == "https://plabayo.tech",
        r.organization.same_as@ == seq!["https://github.com/plabayo", "https://github.com/plabayo/homework"],
{
    let same_as = ["https://github.com/plabayo", "https://github.com/plabayo/homework"];
    assert(same_as@ =~= seq!["https://github.com/plabayo", "https://github.com/plabayo/homework"]);
    SiteDocument {
        context: "https://schema.org",
        website: WebSite {
            schema_type: SchemaType::WebSite,
            id: "https://elementary.training/#site",
            url: "https://elementary.training/",
            name: "Oefeningen Basisschool",
            description: "Gratis huiswerk middel voor de basisschool. Geen account, geen tracking, volledig offline na het eerste bezoek.",
            in_language: "nl-BE",
            publisher: "https://elementary.training/#publisher",
        },
        organization: EducationalOrganization {
            schema_type: SchemaType::EducationalOrganization,
            id: "https://elementary.training/#publisher",
            name: "Plabayo",
            url: "https://plabayo.tech",
            same_as,
        },
    }
}

/// The structured-data document of an exercise page: the resource at
/// `<origin><path>` (id `…#resource`) named after the exercise, and the
/// trail start › level › exercise, the level linking to its home-page
/// section.
pub fn build_exercise_document(info: ExerciseInfo, description: &'static str) -> (r:
    ExerciseDocument)
    ensures
        r.context == "https://schema.org",
        r.resource.schema_type == SchemaType::LearningResource,
        r.resource.url@ == origin() + info.path@,
        r.resource.id@ == origin() + info.path@ + "#resource"@,
        r.resource.name == info.label,
        r.resource.description == description,
        r.resource.in_language == "nl-BE",
        r.resource.is_accessible_for_free,
        r.resource.learning_resource_type == LearningResourceType::Exercise,
        r.resource.educational_level == breadcrumb_text(info.level),
        r.resource.audience.schema_type == SchemaType::EducationalAudience,
        r.resource.audience.educational_role == EducationalRole::Student,
        r.resource.license == "https://github.com/plabayo/homework/blob/main/LICENSE",
        r.resource.is_part_of == "https://elementary.training/#site",
        r.breadcrumb.schema_type == SchemaType::BreadcrumbList,
        r.breadcrumb.item_list_element@.len() == 3,
        forall|i: int|
            0 <= i < 3 ==> (#[trigger] r.breadcrumb.item_list_element@[i]).schema_type
                == SchemaType::ListItem && r.breadcrumb.item_list_element@[i].position == i + 1,
        r.breadcrumb.item_list_element@[0].name == "start",
        opt_text(r.breadcrumb.item_list_element@[0].item) == Some("https://elementary.training/"@),
        r.breadcrumb.item_list_element@[1].name == breadcrumb_text(info.level),
        opt_text(r.breadcrumb.item_list_element@[1].item) == Some(
            origin() + "/#"@ + anchor_text(info.level),
        ),
        r.breadcrumb.item_list_element@[2].name == info.label,
        r.breadcrumb.item_list_element@[2].item is None,
{
    let mut url = String::from_str("https://elementary.training");
    url.append(info.path);
    let mut resource_id = String::from_str(url.as_str());
    resource_id.append("#resource");
    let level_name = breadcrumb_level_label(info.level);
    let mut level_item = String::from_str("https://elementary.training");
    level_item.append("/#niveau-");
    push_decimal(&mut level_item, info.level);
    assert(level_item@ =~= origin() + "/#"@ + anchor_text(info.level)) by {
        reveal_strlit("/#niveau-");
        reveal_strlit("/#");
        reveal_strlit("niveau-");
    }
    let items = vec![
        ListItem {
            schema_type: SchemaType::ListItem,
            position: 1,
            name: "start",
            item: Some(String::from_str("https://elementary.training/")),
        },
        ListItem {
            schema_type: SchemaType::ListItem,
            position: 2,
            name: level_name,
            item: Some(level_item),
        },
        ListItem { schema_type: SchemaType::ListItem, position: 3, name: info.label, item: None },
    ];
    ExerciseDocument {
        context: "https://schema.org",
        resource: LearningResource {
            schema_type: SchemaType::LearningResource,
            id: resource_id,
            url,
            name: info.label,
            description,
            in_language: "nl-BE",
            is_accessible_for_free: true,
            learning_resource_type: LearningResourceType::Exercise,
            educational_level: level_name,
            audience: EducationalAudience {
                schema_type: SchemaType::EducationalAudience,
                educational_role: EducationalRole::Student,
            },
            license: "https://github.com/plabayo/homework/blob/main/LICENSE",
            is_part_of: "https://elementary.training/#site",
        },
        breadcrumb: BreadcrumbList {
            schema_type: SchemaType::BreadcrumbList,
            item_list_element: items,
        },
    }
}

} // verus!
