//! The structured lexical entries the pipeline produces, together with their
//! mathematical models.

use vstd::prelude::*;

verus! {

/// The model of a structured entry: every text field as a code-point
/// sequence.
pub ghost struct EntryModel {
    pub id: Option<int>,
    pub data_id: Seq<char>,
    pub data_type: Seq<char>,
    pub headword: Seq<char>,
    pub kana_reading: Option<Seq<char>>,
    pub kanji_writing: Option<Seq<char>>,
    pub part_of_speech: Option<Seq<char>>,
    pub conjugation: Option<Seq<char>>,
    pub definition_html: Seq<char>,
    pub definition_text: Seq<char>,
    pub raw_mdx_content: Seq<char>,
}

/// A structured lexical entry assembled from one title line and one markup
/// block; immutable once assembled.
#[derive(Clone, Debug)]
pub struct ObunshaDictEntry {
    /// Storage row id; absent until the storage collaborator assigns one.
    pub id: Option<i64>,
    /// The mandatory unique source identifier of the record.
    pub data_id: String,
    /// The source record type marker.
    pub data_type: String,
    /// The full title line of the record.
    pub headword: String,
    /// The phonetic reading, when one could be recovered.
    pub kana_reading: Option<String>,
    /// The script form, when one could be recovered.
    pub kanji_writing: Option<String>,
    /// The grammatical tag, when the markup carries one.
    pub part_of_speech: Option<String>,
    /// The conjugation pattern, when the markup carries one.
    pub conjugation: Option<String>,
    /// The markup block as received.
    pub definition_html: String,
    /// The flattened definition text recovered from the markup.
    pub definition_text: String,
    /// The raw record: title line and markup block.
    pub raw_mdx_content: String,
}

impl View for ObunshaDictEntry {
    type V = EntryModel;

    open spec fn view(&self) -> EntryModel {
        EntryModel {
            id: match self.id {
                Some(v) => Some(v as int),
                None => None,
            },
            data_id: self.data_id@,
            data_type: self.data_type@,
            headword: self.headword@,
            kana_reading: self.kana_reading.deep_view(),
            kanji_writing: self.kanji_writing.deep_view(),
            part_of_speech: self.part_of_speech.deep_view(),
            conjugation: self.conjugation.deep_view(),
            definition_html: self.definition_html@,
            definition_text: self.definition_text@,
            raw_mdx_content: self.raw_mdx_content@,
        }
    }
}

impl DeepView for ObunshaDictEntry {
    type V = EntryModel;

    open spec fn deep_view(&self) -> EntryModel {
        self.view()
    }
}

/// The model of a flat dictionary entry.
pub ghost struct DictEntryModel {
    pub id: Option<int>,
    pub kana_entry: Seq<char>,
    pub kanji_form: Option<Seq<char>>,
    pub meaning: Seq<char>,
    pub pronunciation: Option<Seq<char>>,
    pub entry_type: Seq<char>,
    pub raw_html: Seq<char>,
}

/// A flat dictionary entry parsed from a single markup record.
#[derive(Clone, Debug)]
pub struct DictionaryEntry {
    /// Storage row id; absent until the storage collaborator assigns one.
    pub id: Option<i64>,
    /// The phonetic reading; never empty.
    pub kana_entry: String,
    /// The script form, when one could be recovered.
    pub kanji_form: Option<String>,
    /// The definition text; never empty.
    pub meaning: String,
    /// The pronunciation marks, when the markup carries any.
    pub pronunciation: Option<String>,
    /// The record type marker.
    pub entry_type: String,
    /// The markup block as received.
    pub raw_html: String,
}

impl View for DictionaryEntry {
    type V = DictEntryModel;

    open spec fn view(&self) -> DictEntryModel {
        DictEntryModel {
            id: match self.id {
                Some(v) => Some(v as int),
                None => None,
            },
            kana_entry: self.kana_entry@,
            kanji_form: self.kanji_form.deep_view(),
            meaning: self.meaning@,
            pronunciation: self.pronunciation.deep_view(),
            entry_type: self.entry_type@,
            raw_html: self.raw_html@,
        }
    }
}

impl DeepView for DictionaryEntry {
    type V = DictEntryModel;

    open spec fn deep_view(&self) -> DictEntryModel {
        self.view()
    }
}

} // verus!
