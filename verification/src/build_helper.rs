//! What a service's build step derives from names: the modules to list for a
//! directory of generated code, and the paths of a service's files.

use crate::text::str_equal;
use vstd::prelude::*;
use vstd::string::StringExecFns;

verus! {

/// What the build step reads of one entry of a directory.
#[derive(Debug, Clone, PartialEq, Eq)]
pub struct EntryInfo {
    /// Whether the entry is a directory.
    pub is_dir: bool,
    /// The entry's name.
    pub file_name: Option<String>,
    /// The name's extension, without the dot.
    pub extension: Option<String>,
    /// The name without its extension.
    pub file_stem: Option<String>,
}

/// Whether an entry is a source file that is listed as a module: one with
/// the extension `rs` that is neither `mod.rs` nor `gecko_client.rs`.
pub open spec fn is_listed_source(entry: EntryInfo) -> bool {
    &&& entry.extension matches Some(ext) && ext@ == "rs"@
    &&& !(entry.file_name matches Some(name) && (name@ == "mod.rs"@ || name@ == "gecko_client.rs"@))
    &&& entry.file_stem is Some
}

/// The module names that one entry gives: its name if it is a directory,
/// then its stem if it is a listed source file.
pub open spec fn entry_items(entry: EntryInfo) -> Seq<Seq<char>> {
    (if entry.is_dir && entry.file_name is Some {
        seq![entry.file_name->0@]
    } else {
        seq![]
    }) + (if is_listed_source(entry) {
        seq![entry.file_stem->0@]
    } else {
        seq![]
    })
}

/// The module names that the entries give, in their order.
pub open spec fn module_names(entries: Seq<EntryInfo>) -> Seq<Seq<char>>
    decreases entries.len(),
{
    if entries.len() == 0 {
        seq![]
    } else {
        module_names(entries.drop_last()) + entry_items(entries.last())
    }
}

/// The line that declares one module.
pub open spec fn mod_line(name: Seq<char>) -> Seq<char> {
    "pub mod "@ + name + ";\n"@
}

/// The text that declares the modules, one line each.
pub open spec fn mod_text(names: Seq<Seq<char>>) -> Seq<char>
    decreases names.len(),
{
    if names.len() == 0 {
        Seq::empty()
    } else {
        mod_text(names.drop_last()) + mod_line(names.last())
    }
}

/// The views of a list of texts.
pub open spec fn views(items: Seq<String>) -> Seq<Seq<char>> {
    items.map_values(|s: String| s@)
}

/// Look at all the `*.rs` files and subdirectories of a directory, given by
/// its entries, and name the modules to add to its `mod.rs`.
pub fn module_items(entries: &Vec<EntryInfo>) -> (items: Vec<String>)
    ensures
        views(items@) == module_names(entries@),
{
    let mut items: Vec<String> = Vec::new();
    let mut i: usize = 0;
    assert(views(items@) =~= module_names(entries@.take(0)));
    while i < entries.len()
        invariant
            i <= entries.len(),
            views(items@) == module_names(entries@.take(i as int)),
        decreases entries.len() - i,
    {
        let entry = &entries[i];
        let ghost before = items@;
        proof {
            assert(entries@.take(i + 1).drop_last() =~= entries@.take(i as int));
            assert(entries@.take(i + 1).last() == *entry);
        }
        if entry.is_dir {
            match &entry.file_name {
                Some(name) => {
                    items.push(name.clone());
                },
                None => {},
            }
        }
        let ghost middle = items@;
        let listed = match &entry.extension {
            Some(ext) => str_equal(ext.as_str(), "rs") && !(match &entry.file_name {
                Some(name) => str_equal(name.as_str(), "mod.rs") || str_equal(
                    name.as_str(),
                    "gecko_client.rs",
                ),
                None => false,
            }),
            None => false,
        };
        if listed {
            match &entry.file_stem {
                Some(stem) => {
                    items.push(stem.clone());
                },
                None => {},
            }
        }
        proof {
            assert(views(items@) =~= views(before) + entry_items(*entry));
        }
        i = i + 1;
    }
    proof {
        assert(entries@.take(i as int) =~= entries@);
    }
    items
}

/// The text of a `mod.rs` that declares the given modules.
pub fn mod_file_text(items: &Vec<String>) -> (text: String)
    ensures
        text@ == mod_text(views(items@)),
{
    let mut text = String::new();
    let mut i: usize = 0;
    assert(views(items@).take(0) =~= Seq::<Seq<char>>::empty());
    while i < items.len()
        invariant
            i <= items.len(),
            text@ == mod_text(views(items@).take(i as int)),
        decreases items.len() - i,
    {
        proof {
            let names = views(items@);
            assert(names.take(i + 1).drop_last() =~= names.take(i as int));
            assert(names.take(i + 1).last() == items@[i as int]@);
        }
        text.append("pub mod ");
        text.append(items[i].as_str());
        text.append(";\n");
        proof {
            assert(text@ =~= mod_text(views(items@).take(i as int)) + mod_line(items@[i as int]@));
        }
        i = i + 1;
    }
    proof {
        assert(views(items@).take(i as int) =~= views(items@));
    }
    text
}

/// Where the description of a service lies: `src/`, the name, `.sidl`.
pub fn sidl_path(sidl_name: &str) -> (path: String)
    ensures
        path@ == "src/"@ + sidl_name@ + ".sidl"@,
{
    let mut path = String::from_str("src/");
    path.append(sidl_name);
    path.append(".sidl");
    path
}

/// Where the documentation of a service's client goes.
pub fn client_doc_path(sidl_name: &str) -> (path: String)
    ensures
        path@ == "client/generated/"@ + sidl_name@ + "_service.md"@,
{
    let mut path = String::from_str("client/generated/");
    path.append(sidl_name);
    path.append("_service.md");
    path
}

} // verus!
