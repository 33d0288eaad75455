//! From the text of a topic file to its section, and the comparison of the
//! language folders' file lists.

use crate::catalog::{Catalog, Entry, FileMap, Files, LangMap, Section, SectionMap, SectionValue};
use crate::table::Table;
use crate::text::{is_listed, views};
use vstd::prelude::*;

verus! {

/// A value of a topic file's object, as far as loading reads it.
pub enum JsonMember {
    /// A JSON string.
    Text(String),
    /// A JSON object: each of its keys with the string under it, or with
    /// `None` where the value under it is not a string.
    Object(Vec<(String, Option<String>)>),
    /// Any other JSON value.
    Other,
}

/// A parsed topic file, as far as loading reads it.
pub enum JsonDocument {
    /// A JSON object, as its keys and values.
    Object(Vec<(String, JsonMember)>),
    /// Any other JSON value.
    Other,
}

/// A nested key with the text under it, as contracts see the pair.
pub type VariantShape = (Seq<char>, Option<Seq<char>>);

/// A value of a topic file's object, as contracts see it.
pub enum MemberShape {
    Text(Seq<char>),
    Object(Seq<VariantShape>),
    Other,
}

/// A parsed topic file, as contracts see it.
pub enum DocumentShape {
    Object(Seq<(Seq<char>, MemberShape)>),
    Other,
}

/// The view of a nested key and its text.
pub open spec fn variant_shape(variant: (String, Option<String>)) -> VariantShape {
    (
        variant.0@,
        match variant.1 {
            Some(text) => Some(text@),
            None => None,
        },
    )
}

impl View for JsonMember {
    type V = MemberShape;

    open spec fn view(&self) -> MemberShape {
        match self {
            JsonMember::Text(text) => MemberShape::Text(text@),
            JsonMember::Object(variants) => MemberShape::Object(
                variants@.map_values(|variant: (String, Option<String>)| variant_shape(variant)),
            ),
            JsonMember::Other => MemberShape::Other,
        }
    }
}

/// The view of a key and its value.
pub open spec fn member_shape(member: (String, JsonMember)) -> (Seq<char>, MemberShape) {
    (member.0@, member.1@)
}

impl View for JsonDocument {
    type V = DocumentShape;

    open spec fn view(&self) -> DocumentShape {
        match self {
            JsonDocument::Object(members) => DocumentShape::Object(
                members@.map_values(|member: (String, JsonMember)| member_shape(member)),
            ),
            JsonDocument::Other => DocumentShape::Other,
        }
    }
}

/// What `serde_json::from_str` makes of a text, read as a
/// `serde_json::Value`: `None` where the text is not valid JSON; else the
/// value's shape, with the keys of an object in the order in which its
/// `serde_json::Map` hands them out.
pub uninterp spec fn json_document(text: Seq<char>) -> Option<DocumentShape>;

/// Parses `text` with `serde_json::from_str` into a `serde_json::Value` and
/// copies out of it what loading reads: strings, and the keys of objects one
/// and two levels down. The contract claims only that the outcome is the
/// one named by [`json_document`]: the same text gives the same document, or
/// the same failure to parse.
#[verifier::external_body]
pub(crate) fn parse_document(text: &str) -> (parsed: Option<JsonDocument>)
    ensures
        parsed.is_some() == json_document(text@).is_some(),
        parsed matches Some(document) ==> json_document(text@) == Some(document@),
{
    let value: serde_json::Value = serde_json::from_str(text).ok()?;
    Some(match value {
        serde_json::Value::Object(members) => JsonDocument::Object(members.into_iter().map(|(key, member)| (key, match member {
            serde_json::Value::String(text) => JsonMember::Text(text),
            serde_json::Value::Object(nested) => JsonMember::Object(nested.into_iter().map(|(tag, inner)| (tag, match inner {
                serde_json::Value::String(text) => Some(text),
                _ => None,
            })).collect()),
            _ => JsonMember::Other,
        })).collect()),
        _ => JsonDocument::Other,
    })
}

/// The variant set that a nested object stands for: each key whose value is
/// a string, with that string. A key that occurs again replaces the earlier
/// one.
pub open spec fn variants_of(variants: Seq<VariantShape>) -> Map<Seq<char>, Seq<char>>
    decreases variants.len(),
{
    if variants.len() == 0 {
        Map::empty()
    } else {
        let earlier = variants_of(variants.drop_last());
        match variants.last().1 {
            Some(text) => earlier.insert(variants.last().0, text),
            None => earlier,
        }
    }
}

/// The section that a topic file's object stands for: a string gives a
/// text, an object gives a variant set, and a key with any other value is
/// left out. A key that occurs again replaces the earlier one.
pub open spec fn section_of(members: Seq<(Seq<char>, MemberShape)>) -> Section
    decreases members.len(),
{
    if members.len() == 0 {
        Map::empty()
    } else {
        let earlier = section_of(members.drop_last());
        match members.last().1 {
            MemberShape::Text(text) => earlier.insert(members.last().0, Entry::Text(text)),
            MemberShape::Object(variants) => earlier.insert(
                members.last().0,
                Entry::Variants(variants_of(variants)),
            ),
            MemberShape::Other => earlier,
        }
    }
}

/// The section that a parsed topic file stands for. A file whose content is
/// not an object has no keys.
pub open spec fn section_of_document(document: DocumentShape) -> Section {
    match document {
        DocumentShape::Object(members) => section_of(members),
        DocumentShape::Other => Map::empty(),
    }
}

/// The section that the text of a topic file stands for; `None` where the
/// text is not valid JSON.
pub open spec fn loaded_section(text: Seq<char>) -> Option<Section> {
    match json_document(text) {
        Some(document) => Some(section_of_document(document)),
        None => None,
    }
}

/// Why a topic file could not be loaded.
#[derive(Clone, Copy, Debug, PartialEq, Eq, Structural)]
pub enum LoadError {
    /// The text of the file is not valid JSON.
    InvalidJson,
}

/// Builds the variant set of a nested object.
pub fn variants_from(variants: &Vec<(String, Option<String>)>) -> (table: Table<String>)
    ensures
        table@ == variants_of(
            variants@.map_values(|variant: (String, Option<String>)| variant_shape(variant)),
        ),
{
    let ghost shapes = variants@.map_values(
        |variant: (String, Option<String>)| variant_shape(variant),
    );
    let mut table: Table<String> = Table::new();
    let mut i: usize = 0;
    while i < variants.len()
        invariant
            i <= variants.len(),
            shapes == variants@.map_values(
                |variant: (String, Option<String>)| variant_shape(variant),
            ),
            table@ == variants_of(shapes.take(i as int)),
        decreases variants.len() - i,
    {
        assert(shapes.take(i + 1).drop_last() =~= shapes.take(i as int));
        match &variants[i].1 {
            Some(text) => {
                table.insert(variants[i].0.clone(), text.clone());
            },
            None => {},
        }
        i += 1;
    }
    assert(shapes.take(i as int) =~= shapes);
    table
}

/// Builds the section of a topic file's object.
pub fn section_from(members: &Vec<(String, JsonMember)>) -> (section: SectionMap)
    ensures
        section@ == section_of(
            members@.map_values(|member: (String, JsonMember)| member_shape(member)),
        ),
{
    let ghost shapes = members@.map_values(|member: (String, JsonMember)| member_shape(member));
    let mut section = SectionMap::new();
    let mut i: usize = 0;
    while i < members.len()
        invariant
            i <= members.len(),
            shapes == members@.map_values(|member: (String, JsonMember)| member_shape(member)),
            section@ == section_of(shapes.take(i as int)),
        decreases members.len() - i,
    {
        assert(shapes.take(i + 1).drop_last() =~= shapes.take(i as int));
        match &members[i].1 {
            JsonMember::Text(text) => {
                section.insert(members[i].0.clone(), SectionValue::Text(text.clone()));
            },
            JsonMember::Object(variants) => {
                section.insert(
                    members[i].0.clone(),
                    SectionValue::Variants(variants_from(variants)),
                );
            },
            JsonMember::Other => {},
        }
        i += 1;
    }
    assert(shapes.take(i as int) =~= shapes);
    section
}

/// Builds the section of a parsed topic file.
pub fn section_from_document(document: &JsonDocument) -> (section: SectionMap)
    ensures
        section@ == section_of_document(document@),
{
    match document {
        JsonDocument::Object(members) => section_from(members),
        JsonDocument::Other => SectionMap::new(),
    }
}

/// Loads a section from the text of a topic file.
pub fn load_section(text: &str) -> (loaded: Result<SectionMap, LoadError>)
    ensures
        match loaded {
            Ok(section) => loaded_section(text@) == Some(section@),
            Err(LoadError::InvalidJson) => loaded_section(text@).is_none(),
        },
{
    match parse_document(text) {
        Some(document) => Ok(section_from_document(&document)),
        None => Err(LoadError::InvalidJson),
    }
}

/// A topic file as contracts see it: its name and its text.
pub type FileText = (Seq<char>, Seq<char>);

/// The view of a topic file's name and text.
pub open spec fn file_text(file: (String, String)) -> FileText {
    (file.0@, file.1@)
}

/// The views of the topic files of one folder, in order.
pub open spec fn file_texts(files: Seq<(String, String)>) -> Seq<FileText> {
    files.map_values(|file: (String, String)| file_text(file))
}

/// The view of a language folder's name and topic files.
pub open spec fn folder_text(folder: (String, Vec<(String, String)>)) -> (Seq<char>, Seq<FileText>) {
    (folder.0@, file_texts(folder.1@))
}

/// The views of the language folders, in order.
pub open spec fn folder_texts(folders: Seq<(String, Vec<(String, String)>)>) -> Seq<
    (Seq<char>, Seq<FileText>),
> {
    folders.map_values(|folder: (String, Vec<(String, String)>)| folder_text(folder))
}

/// Whether the text of every one of the files is valid JSON.
pub open spec fn all_valid(files: Seq<FileText>) -> bool {
    forall|j: int| 0 <= j < files.len() ==> loaded_section((#[trigger] files[j]).1).is_some()
}

/// The topic files of one language, loaded from texts that are all valid. A
/// name that occurs again replaces the earlier one.
pub open spec fn files_of(files: Seq<FileText>) -> Files
    decreases files.len(),
{
    if files.len() == 0 {
        Map::empty()
    } else {
        files_of(files.drop_last()).insert(files.last().0, loaded_section(files.last().1).unwrap())
    }
}

/// The catalog loaded from folders whose texts are all valid. A folder name
/// that occurs again replaces the earlier one.
pub open spec fn catalog_of(folders: Seq<(Seq<char>, Seq<FileText>)>) -> Catalog
    decreases folders.len(),
{
    if folders.len() == 0 {
        Map::empty()
    } else {
        catalog_of(folders.drop_last()).insert(folders.last().0, files_of(folders.last().1))
    }
}

/// The place of a topic file among the folders that were handed over.
#[derive(Clone, Copy, Debug, PartialEq, Eq, Structural)]
pub struct FilePlace {
    /// The index of the folder.
    pub folder: usize,
    /// The index of the file in its folder.
    pub file: usize,
}

/// Loads the topic files of one language from their texts. Fails with the
/// index of the first file whose text is not valid JSON.
pub fn load_files(files: &Vec<(String, String)>) -> (loaded: Result<FileMap, usize>)
    ensures
        match loaded {
            Ok(map) => all_valid(file_texts(files@)) && map@ == files_of(file_texts(files@)),
            Err(j) => {
                &&& j < files.len()
                &&& loaded_section(files[j as int].1@).is_none()
                &&& all_valid(file_texts(files@).take(j as int))
            },
        },
{
    let ghost texts = file_texts(files@);
    let mut map = FileMap::new();
    let mut j: usize = 0;
    while j < files.len()
        invariant
            j <= files.len(),
            texts == file_texts(files@),
            all_valid(texts.take(j as int)),
            map@ == files_of(texts.take(j as int)),
        decreases files.len() - j,
    {
        assert(texts.take(j + 1).drop_last() =~= texts.take(j as int));
        match load_section(files[j].1.as_str()) {
            Ok(section) => {
                map.insert(files[j].0.clone(), section);
            },
            Err(_) => {
                return Err(j);
            },
        }
        assert forall|k: int| 0 <= k < j + 1 implies loaded_section(
            (#[trigger] texts.take(j + 1)[k]).1,
        ).is_some() by {
            if k < j {
                assert(texts.take(j as int)[k] == texts.take(j + 1)[k]);
            }
        }
        j += 1;
    }
    assert(texts.take(j as int) =~= texts);
    Ok(map)
}

/// Loads a catalog from the texts of the topic files of each language
/// folder. Fails with the place of the first file, in the order of folders
/// and of files, whose text is not valid JSON.
pub fn load_catalog(folders: &Vec<(String, Vec<(String, String)>)>) -> (loaded: Result<
    LangMap,
    FilePlace,
>)
    ensures
        match loaded {
            Ok(langs) => {
                &&& forall|i: int|
                    0 <= i < folders.len() ==> all_valid(
                        (#[trigger] folder_texts(folders@)[i]).1,
                    )
                &&& langs@ == catalog_of(folder_texts(folders@))
            },
            Err(place) => {
                &&& place.folder < folders.len()
                &&& place.file < folders[place.folder as int].1.len()
                &&& loaded_section(folders[place.folder as int].1[place.file as int].1@).is_none()
                &&& all_valid(
                    folder_texts(folders@)[place.folder as int].1.take(place.file as int),
                )
                &&& forall|i: int|
                    0 <= i < place.folder ==> all_valid((#[trigger] folder_texts(folders@)[i]).1)
            },
        },
{
    let ghost texts = folder_texts(folders@);
    let mut langs = LangMap::new();
    let mut i: usize = 0;
    while i < folders.len()
        invariant
            i <= folders.len(),
            texts == folder_texts(folders@),
            forall|k: int| 0 <= k < i ==> all_valid((#[trigger] texts[k]).1),
            langs@ == catalog_of(texts.take(i as int)),
        decreases folders.len() - i,
    {
        assert(texts.take(i + 1).drop_last() =~= texts.take(i as int));
        assert(texts[i as int].1 == file_texts(folders[i as int].1@));
        match load_files(&folders[i].1) {
            Ok(files) => {
                langs.insert(folders[i].0.clone(), files);
            },
            Err(j) => {
                return Err(FilePlace { folder: i, file: j });
            },
        }
        i += 1;
    }
    assert(texts.take(i as int) =~= texts);
    Ok(langs)
}

/// A language folder as contracts see it: its name, and the names of the
/// topic files in it.
pub type FolderShape = (Seq<char>, Seq<Seq<char>>);

/// The view of a language folder.
pub open spec fn folder_shape(folder: (String, Vec<String>)) -> FolderShape {
    (folder.0@, views(folder.1@))
}

/// The views of the language folders, in order.
pub open spec fn folder_shapes(folders: Seq<(String, Vec<String>)>) -> Seq<FolderShape> {
    folders.map_values(|folder: (String, Vec<String>)| folder_shape(folder))
}

/// Whether some folder has a topic file of this name.
pub open spec fn file_known(folders: Seq<FolderShape>, file: Seq<char>) -> bool {
    exists|j: int| 0 <= j < folders.len() && (#[trigger] folders[j]).1.contains(file)
}

/// Whether folder `i` lacks a topic file that some other folder has.
pub open spec fn lacks(folders: Seq<FolderShape>, i: int, file: Seq<char>) -> bool {
    &&& 0 <= i < folders.len()
    &&& !folders[i].1.contains(file)
    &&& file_known(folders, file)
}

/// Whether the pair names one of the first `n` folders and a topic file
/// that the folder lacks and another folder has.
pub open spec fn is_gap_before(folders: Seq<FolderShape>, n: int, pair: (Seq<char>, Seq<char>)) -> bool {
    exists|i: int| i < n && #[trigger] lacks(folders, i, pair.1) && folders[i].0 == pair.0
}

/// Whether the pair names a folder and a topic file that the folder lacks
/// and another folder has.
pub open spec fn is_gap(folders: Seq<FolderShape>, pair: (Seq<char>, Seq<char>)) -> bool {
    is_gap_before(folders, folders.len() as int, pair)
}

/// Whether no two folders have the same name.
pub open spec fn names_differ(folders: Seq<FolderShape>) -> bool {
    forall|i: int, j: int|
        0 <= i < j < folders.len() ==> (#[trigger] folders[i]).0 != (#[trigger] folders[j]).0
}

/// The view of a folder name with a file name.
pub open spec fn pair_shape(pair: (String, String)) -> (Seq<char>, Seq<char>) {
    (pair.0@, pair.1@)
}

/// The views of a list of folder names with file names.
pub open spec fn pair_shapes(pairs: Seq<(String, String)>) -> Seq<(Seq<char>, Seq<char>)> {
    pairs.map_values(|pair: (String, String)| pair_shape(pair))
}

/// The names of all topic files that any folder has, each once.
pub fn known_files(folders: &Vec<(String, Vec<String>)>) -> (files: Vec<String>)
    ensures
        forall|file: Seq<char>|
            views(files@).contains(file) <==> file_known(folder_shapes(folders@), file),
        views(files@).no_duplicates(),
{
    let ghost shapes = folder_shapes(folders@);
    let mut files: Vec<String> = Vec::new();
    let mut i: usize = 0;
    while i < folders.len()
        invariant
            i <= folders.len(),
            shapes == folder_shapes(folders@),
            views(files@).no_duplicates(),
            forall|file: Seq<char>|
                views(files@).contains(file) <==> file_known(shapes.take(i as int), file),
        decreases folders.len() - i,
    {
        let names = &folders[i].1;
        let mut j: usize = 0;
        while j < names.len()
            invariant
                i < folders.len(),
                j <= names.len(),
                shapes == folder_shapes(folders@),
                views(names@) == shapes[i as int].1,
                views(files@).no_duplicates(),
                forall|file: Seq<char>|
                    views(files@).contains(file) <==> (file_known(shapes.take(i as int), file)
                        || views(names@).take(j as int).contains(file)),
            decreases names.len() - j,
        {
            let ghost before = views(files@);
            let ghost seen = views(names@).take(j as int);
            let name = &names[j];
            if !is_listed(&files, name) {
                files.push(name.clone());
                assert(views(files@) =~= before.push(name@));
            }
            assert(views(names@).take(j + 1) =~= seen.push(name@));
            assert forall|file: Seq<char>|
                views(files@).contains(file) <==> (file_known(shapes.take(i as int), file)
                    || seen.push(name@).contains(file)) by {
                if file == name@ {
                    assert(seen.push(name@)[j as int] == file);
                    if views(files@) == before.push(name@) {
                        assert(before.push(name@)[before.len() as int] == file);
                    }
                } else {
                    if seen.push(name@).contains(file) {
                        let k = choose|k: int|
                            0 <= k < seen.push(name@).len() && seen.push(name@)[k] == file;
                        assert(seen[k] == file);
                    }
                    if seen.contains(file) {
                        let k = choose|k: int| 0 <= k < seen.len() && seen[k] == file;
                        assert(seen.push(name@)[k] == file);
                    }
                    if before.contains(file) {
                        let k = choose|k: int| 0 <= k < before.len() && before[k] == file;
                        assert(before.push(name@)[k] == file);
                    }
                    if views(files@).contains(file) && views(files@) == before.push(name@) {
                        let k = choose|k: int|
                            0 <= k < before.push(name@).len() && before.push(name@)[k] == file;
                        assert(before[k] == file);
                    }
                }
            }
            j += 1;
        }
        assert(views(names@).take(j as int) =~= shapes[i as int].1);
        assert forall|file: Seq<char>|
            views(files@).contains(file) <==> file_known(shapes.take(i + 1), file) by {
            let wider = shapes.take(i + 1);
            if file_known(shapes.take(i as int), file) {
                let k = choose|k: int|
                    0 <= k < shapes.take(i as int).len() && (#[trigger] shapes.take(
                        i as int,
                    )[k]).1.contains(file);
                assert(wider[k].1.contains(file));
            }
            if shapes[i as int].1.contains(file) {
                assert(wider[i as int].1.contains(file));
            }
            if file_known(wider, file) {
                let k = choose|k: int| 0 <= k < wider.len() && (#[trigger] wider[k]).1.contains(file);
                if k < i {
                    assert(shapes.take(i as int)[k].1.contains(file));
                }
            }
        }
        i += 1;
    }
    assert(shapes.take(i as int) =~= shapes);
    files
}

/// Compares the language folders: every folder with every topic file that
/// it lacks and some other folder has. Where no two folders have the same
/// name, no pair comes twice.
pub fn missing_files(folders: &Vec<(String, Vec<String>)>) -> (missing: Vec<(String, String)>)
    ensures
        forall|pair: (Seq<char>, Seq<char>)|
            pair_shapes(missing@).contains(pair) <==> is_gap(folder_shapes(folders@), pair),
        names_differ(folder_shapes(folders@)) ==> pair_shapes(missing@).no_duplicates(),
{
    let ghost shapes = folder_shapes(folders@);
    let all = known_files(folders);
    let mut missing: Vec<(String, String)> = Vec::new();
    let mut i: usize = 0;
    while i < folders.len()
        invariant
            i <= folders.len(),
            shapes == folder_shapes(folders@),
            views(all@).no_duplicates(),
            forall|file: Seq<char>| views(all@).contains(file) <==> file_known(shapes, file),
            forall|pair: (Seq<char>, Seq<char>)|
                pair_shapes(missing@).contains(pair) <==> is_gap_before(shapes, i as int, pair),
            names_differ(shapes) ==> pair_shapes(missing@).no_duplicates(),
        decreases folders.len() - i,
    {
        let folder = &folders[i].0;
        let names = &folders[i].1;
        let mut j: usize = 0;
        while j < all.len()
            invariant
                i < folders.len(),
                j <= all.len(),
                shapes == folder_shapes(folders@),
                shapes[i as int] == (folder@, views(names@)),
                views(all@).no_duplicates(),
                forall|file: Seq<char>| views(all@).contains(file) <==> file_known(shapes, file),
                forall|pair: (Seq<char>, Seq<char>)|
                    pair_shapes(missing@).contains(pair) <==> (is_gap_before(shapes, i as int, pair)
                        || (pair.0 == folder@ && views(all@).take(j as int).contains(pair.1)
                        && !views(names@).contains(pair.1))),
                names_differ(shapes) ==> pair_shapes(missing@).no_duplicates(),
            decreases all.len() - j,
        {
            let ghost before = pair_shapes(missing@);
            let ghost seen = views(all@).take(j as int);
            let file = &all[j];
            let ghost found = (folder@, file@);
            let absent = !is_listed(names, file);
            if absent {
                missing.push((folder.clone(), file.clone()));
                assert(pair_shapes(missing@) =~= before.push(found));
                assert(names_differ(shapes) ==> before.push(found).no_duplicates()) by {
                    if names_differ(shapes) {
                        if is_gap_before(shapes, i as int, found) {
                            let k = choose|k: int|
                                k < i && #[trigger] lacks(shapes, k, found.1) && shapes[k].0
                                    == found.0;
                            assert(shapes[k].0 != shapes[i as int].0);
                        }
                        if seen.contains(file@) {
                            let k = choose|k: int| 0 <= k < seen.len() && seen[k] == file@;
                            assert(views(all@)[k] == views(all@)[j as int]);
                        }
                        assert(!before.contains(found));
                        assert forall|a: int, b: int|
                            0 <= a < before.len() + 1 && 0 <= b < before.len() + 1 && a
                                != b implies before.push(found)[a] != before.push(found)[b] by {
                            if a < before.len() {
                                assert(before.contains(before[a]));
                            }
                            if b < before.len() {
                                assert(before.contains(before[b]));
                            }
                        }
                    }
                }
            }
            j += 1;
            assert forall|pair: (Seq<char>, Seq<char>)|
                pair_shapes(missing@).contains(pair) <==> (is_gap_before(shapes, i as int, pair)
                    || (pair.0 == folder@ && views(all@).take(j as int).contains(pair.1) && !views(
                    names@,
                ).contains(pair.1))) by {
                let now = pair_shapes(missing@);
                let wider = views(all@).take(j as int);
                assert(wider =~= seen.push(file@));
                assert(wider.contains(pair.1) <==> (seen.contains(pair.1) || pair.1 == file@)) by {
                    assert(wider[j - 1] == file@);
                    if wider.contains(pair.1) && pair.1 != file@ {
                        let k = choose|k: int| 0 <= k < wider.len() && wider[k] == pair.1;
                        assert(seen[k] == pair.1);
                    }
                    if seen.contains(pair.1) {
                        let k = choose|k: int| 0 <= k < seen.len() && seen[k] == pair.1;
                        assert(wider[k] == pair.1);
                    }
                }
                assert(before.contains(pair) <==> (is_gap_before(shapes, i as int, pair) || (pair.0
                    == folder@ && seen.contains(pair.1) && !views(names@).contains(pair.1))));
                assert(now.contains(pair) <==> (before.contains(pair) || (absent && pair == found)))
                    by {
                    if absent {
                        assert(now[before.len() as int] == found);
                        if before.contains(pair) {
                            let k = choose|k: int| 0 <= k < before.len() && before[k] == pair;
                            assert(now[k] == pair);
                        }
                        if now.contains(pair) && pair != found {
                            let k = choose|k: int| 0 <= k < now.len() && now[k] == pair;
                            assert(before[k] == pair);
                        }
                    }
                }
            }
        }
        assert(views(all@).take(j as int) =~= views(all@));
        assert forall|pair: (Seq<char>, Seq<char>)|
            pair_shapes(missing@).contains(pair) <==> is_gap_before(shapes, i + 1, pair) by {
            if is_gap_before(shapes, i as int, pair) {
                let k = choose|k: int|
                    k < i && #[trigger] lacks(shapes, k, pair.1) && shapes[k].0 == pair.0;
                assert(k < i + 1 && lacks(shapes, k, pair.1));
            }
            if pair.0 == folder@ && views(all@).contains(pair.1) && !views(names@).contains(pair.1) {
                assert(lacks(shapes, i as int, pair.1));
            }
            if is_gap_before(shapes, i + 1, pair) {
                let k = choose|k: int|
                    k < i + 1 && #[trigger] lacks(shapes, k, pair.1) && shapes[k].0 == pair.0;
                if k < i {
                    assert(is_gap_before(shapes, i as int, pair));
                }
            }
        }
        i += 1;
    }
    missing
}

} // verus!
