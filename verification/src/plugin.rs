//! Records of plugins.

use crate::text::str_eq;
use std::collections::HashMap;
use vstd::prelude::*;

verus! {

/// Whether a plugin is on offer.
#[derive(Clone, Copy, Debug, PartialEq, Eq, Structural)]
pub enum PluginStatus {
    Active,
    Deprecated,
    Banned,
}

impl Default for PluginStatus {
    fn default() -> (status: PluginStatus)
        ensures
            status == PluginStatus::Active,
    {
        PluginStatus::Active
    }
}

#[derive(Clone, Debug, PartialEq, Eq)]
pub struct PluginScript {
    pub id: i32,
    pub plugin_id: String,
    pub version: String,
    pub script_name: String,
    pub script_file: String,
    pub description: Option<String>,
    pub is_executable: bool,
}

#[derive(Clone, Debug, PartialEq, Eq)]
pub struct PluginTag {
    pub id: i32,
    pub plugin_id: String,
    pub tag: String,
}

#[derive(Clone, Debug, PartialEq, Eq)]
pub struct PluginDependency {
    pub id: i32,
    pub plugin_id: String,
    pub dependency_id: String,
    pub min_version: Option<String>,
}

#[derive(Clone, Debug, PartialEq, Eq)]
pub struct PluginScriptInfo {
    pub name: String,
    pub file: String,
    pub description: Option<String>,
    pub executable: bool,
}

#[derive(Clone, Debug, PartialEq, Eq)]
pub struct PluginDependencyInfo {
    pub id: String,
    pub min_version: Option<String>,
}

#[derive(Clone, Debug, PartialEq, Eq)]
pub struct CreatePluginRequest {
    pub id: String,
    pub name: String,
    pub description: Option<String>,
    pub author: String,
    pub version: String,
    pub min_geektools_version: Option<String>,
    pub homepage_url: Option<String>,
    pub repository_url: Option<String>,
    pub license: Option<String>,
    pub tags: Vec<String>,
    pub scripts: Vec<PluginScriptInfo>,
    pub dependencies: Vec<PluginDependencyInfo>,
}

#[derive(Clone, Copy, Debug, PartialEq, Eq, Structural)]
pub struct PaginationInfo {
    pub page: i32,
    pub limit: i32,
    pub total: i64,
    pub pages: i32,
}

#[derive(Clone, Debug, PartialEq, Eq)]
pub struct PluginSearchQuery {
    pub page: Option<i32>,
    pub limit: Option<i32>,
    pub search: Option<String>,
    pub tag: Option<String>,
    pub sort: Option<String>,
    pub order: Option<String>,
}

/// The column that a listing of plugins is ordered by: the one that
/// `sort` names, if it names one of rating, name and the two dates, and
/// the count of downloads for anything else.
pub open spec fn order_column_text(sort: Seq<char>) -> Seq<char> {
    if sort == "rating"@ {
        "rating"@
    } else if sort == "name"@ {
        "name"@
    } else if sort == "created_at"@ {
        "created_at"@
    } else if sort == "updated_at"@ {
        "updated_at"@
    } else {
        "downloads"@
    }
}

pub fn order_column(sort: &str) -> (column: &'static str)
    ensures
        column@ == order_column_text(sort@),
{
    if str_eq(sort, "rating") {
        "rating"
    } else if str_eq(sort, "name") {
        "name"
    } else if str_eq(sort, "created_at") {
        "created_at"
    } else if str_eq(sort, "updated_at") {
        "updated_at"
    } else {
        "downloads"
    }
}

/// The direction of a listing: ascending for `asc`, descending for
/// anything else.
pub fn order_direction(order: &str) -> (direction: &'static str)
    ensures
        direction@ == if order@ == "asc"@ {
            "ASC"@
        } else {
            "DESC"@
        },
{
    if str_eq(order, "asc") {
        "ASC"
    } else {
        "DESC"
    }
}

impl PluginSearchQuery {
    /// The page asked for: the first where none is named, and never one
    /// before the first.
    pub open spec fn page_number(&self) -> int {
        match self.page {
            Some(p) => if p < 1 {
                1
            } else {
                p as int
            },
            None => 1,
        }
    }

    /// The length of a page: twenty where none is named, and never under
    /// one nor over a hundred.
    pub open spec fn page_length(&self) -> int {
        match self.limit {
            Some(l) => if l < 1 {
                1
            } else if l > 100 {
                100
            } else {
                l as int
            },
            None => 20,
        }
    }

    pub fn resolved_page(&self) -> (page: i32)
        ensures
            page == self.page_number(),
    {
        match self.page {
            Some(p) => if p < 1 {
                1
            } else {
                p
            },
            None => 1,
        }
    }

    pub fn resolved_limit(&self) -> (limit: i32)
        ensures
            limit == self.page_length(),
    {
        match self.limit {
            Some(l) => if l < 1 {
                1
            } else if l > 100 {
                100
            } else {
                l
            },
            None => 20,
        }
    }

    /// How many plugins lie before the page asked for.
    pub fn resolved_offset(&self) -> (offset: i64)
        ensures
            offset == (self.page_number() - 1) * self.page_length(),
    {
        let page: i64 = self.resolved_page() as i64;
        let limit: i64 = self.resolved_limit() as i64;
        assert(0 <= (page - 1) * limit <= 0x7fff_ffff * 100) by (nonlinear_arith)
            requires
                1 <= page <= 0x7fff_ffff,
                1 <= limit <= 100,
        ;
        (page - 1) * limit
    }
}

#[derive(Clone, Debug, PartialEq, Eq)]
pub struct UploadResponse {
    pub plugin_id: String,
    pub version: String,
    pub upload_id: String,
}

#[derive(Clone, Debug, PartialEq, Eq)]
pub struct DownloadTrendItem {
    pub date: String,
    pub downloads: i32,
}

#[derive(Clone, Debug, PartialEq, Eq)]
pub struct PluginStatsResponse {
    pub total_downloads: i32,
    pub weekly_downloads: i32,
    pub monthly_downloads: i32,
    pub version_distribution: HashMap<String, i32>,
    pub download_trend: Vec<DownloadTrendItem>,
}

} // verus!
