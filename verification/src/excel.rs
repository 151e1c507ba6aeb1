//! The import template: a workbook with a data sheet that shows the columns
//! and one example row, and a hidden sheet whose two lists restrict what the
//! gender and class-level columns accept.

use vstd::prelude::*;
use vstd::string::*;

use crate::error::AppError;
use crate::models::class_level_name;
use crate::models::class_level_named;
use crate::models::gender_name;
use crate::models::lemma_class_level_name_round_trip;
use crate::models::ClassLevel;
use crate::models::Gender;
use crate::text::decimal;
use crate::text::decimal_text;

verus! {

/// A workbook of the `umya_spreadsheet` crate.
#[verifier::external_type_specification]
#[verifier::external_body]
pub struct ExSpreadsheet(umya_spreadsheet::Spreadsheet);

/// The data validations of one sheet, of the `umya_spreadsheet` crate.
#[verifier::external_type_specification]
#[verifier::external_body]
pub struct ExDataValidations(umya_spreadsheet::DataValidations);

/// A rule that restricts the cells of one column, from `first_row` to
/// `last_row`, to the values of a list.
#[derive(Debug, Clone)]
pub struct ListValidation {
    /// The range that holds the list, as a formula.
    pub formula: String,
    pub column: u32,
    pub first_row: u32,
    pub last_row: u32,
    pub allow_blank: bool,
    pub show_error_message: bool,
    pub show_input_message: bool,
    /// The title shown on an entry that is not in the list.
    pub error_title: String,
    /// The message shown on an entry that is not in the list.
    pub error_message: String,
}

/// What a `ListValidation` holds.
pub struct ListRule {
    pub formula: Seq<char>,
    pub column: u32,
    pub first_row: u32,
    pub last_row: u32,
    pub allow_blank: bool,
    pub show_error_message: bool,
    pub show_input_message: bool,
    pub error_title: Seq<char>,
    pub error_message: Seq<char>,
}

impl View for ListValidation {
    type V = ListRule;

    open spec fn view(&self) -> ListRule {
        ListRule {
            formula: self.formula@,
            column: self.column,
            first_row: self.first_row,
            last_row: self.last_row,
            allow_blank: self.allow_blank,
            show_error_message: self.show_error_message,
            show_input_message: self.show_input_message,
            error_title: self.error_title@,
            error_message: self.error_message@,
        }
    }
}

/// What one sheet of a workbook holds: its name, whether it is hidden, the
/// text of each filled cell by column and row, both counted from 1, and its
/// list rules.
pub struct SheetModel {
    pub name: Seq<char>,
    pub hidden: bool,
    pub cells: Map<(u32, u32), Seq<char>>,
    pub list_rules: Seq<ListRule>,
}

/// The sheets of a workbook, in order.
pub uninterp spec fn workbook_sheets(book: umya_spreadsheet::Spreadsheet) -> Seq<SheetModel>;

/// Whether every sheet of a workbook is held read in, as the sheets of a
/// workbook made in memory are, and not as the unread text of a file.
pub uninterp spec fn sheets_are_read_in(book: umya_spreadsheet::Spreadsheet) -> bool;

/// The list rules that a set of data validations holds, in order.
pub uninterp spec fn validation_rules(rules: umya_spreadsheet::DataValidations) -> Seq<ListRule>;

/// A visible sheet without cells or rules.
pub open spec fn blank_sheet(name: Seq<char>) -> SheetModel {
    SheetModel { name, hidden: false, cells: Map::empty(), list_rules: Seq::empty() }
}

/// The index of the first sheet with this name.
pub open spec fn sheet_index(sheets: Seq<SheetModel>, name: Seq<char>) -> Option<int>
    decreases sheets.len(),
{
    if sheets.len() == 0 {
        None
    } else if sheets[0].name == name {
        Some(0)
    } else {
        match sheet_index(sheets.drop_first(), name) {
            Some(i) => Some(i + 1),
            None => None,
        }
    }
}

/// The sheets with the first sheet of this name hidden; the sheets as they
/// are where none has the name.
pub open spec fn with_sheet_hidden(sheets: Seq<SheetModel>, name: Seq<char>) -> Seq<SheetModel> {
    match sheet_index(sheets, name) {
        Some(i) => sheets.update(i, SheetModel { hidden: true, ..sheets[i] }),
        None => sheets,
    }
}

/// The sheets with a text in one cell of the first sheet of this name; the
/// sheets as they are where none has the name.
pub open spec fn with_cell(
    sheets: Seq<SheetModel>,
    name: Seq<char>,
    column: u32,
    row: u32,
    text: Seq<char>,
) -> Seq<SheetModel> {
    match sheet_index(sheets, name) {
        Some(i) => sheets.update(
            i,
            SheetModel { cells: sheets[i].cells.insert((column, row), text), ..sheets[i] },
        ),
        None => sheets,
    }
}

/// The sheets with these as the list rules of the first sheet of this
/// name; the sheets as they are where none has the name.
pub open spec fn with_list_rules(
    sheets: Seq<SheetModel>,
    name: Seq<char>,
    rules: Seq<ListRule>,
) -> Seq<SheetModel> {
    match sheet_index(sheets, name) {
        Some(i) => sheets.update(i, SheetModel { list_rules: rules, ..sheets[i] }),
        None => sheets,
    }
}

/// A spreadsheet has 16384 columns and 1048576 rows, counted from 1.
pub open spec fn is_cell(column: u32, row: u32) -> bool {
    1 <= column <= 16384 && 1 <= row <= 1048576
}

/// `new_file` of `umya_spreadsheet`: a workbook made in memory, with one
/// visible sheet, `Sheet1`, without cells or rules.
#[verifier::external_body]
fn new_workbook() -> (book: umya_spreadsheet::Spreadsheet)
    ensures
        workbook_sheets(book) == seq![blank_sheet("Sheet1"@)],
        sheets_are_read_in(book),
{
    umya_spreadsheet::new_file()
}

/// `Spreadsheet::new_sheet`: appends a blank sheet, which is read in, unless
/// a sheet of that name exists; then the workbook stays as it is and the
/// error reads `name duplicate.`.
#[verifier::external_body]
fn add_sheet(book: &mut umya_spreadsheet::Spreadsheet, name: &str) -> (added: Result<(), String>)
    ensures
        sheets_are_read_in(*old(book)) ==> sheets_are_read_in(*final(book)),
        added is Ok <==> sheet_index(workbook_sheets(*old(book)), name@) is None,
        workbook_sheets(*final(book)) == if added is Ok {
            workbook_sheets(*old(book)).push(blank_sheet(name@))
        } else {
            workbook_sheets(*old(book))
        },
        added matches Err(why) ==> why@ == "name duplicate."@,
{
    match book.new_sheet(name) {
        Ok(_) => Ok(()),
        Err(why) => Err(why.to_string()),
    }
}

/// `Spreadsheet::get_sheet_by_name_mut`, then `Worksheet::set_state` with
/// `SheetStateValues::Hidden`: hides the first sheet of that name and
/// returns `true`; returns `false` and changes nothing where there is none.
/// The lookup reads in a sheet that is not, which can fail, so the sheets
/// are asked to be read in.
#[verifier::external_body]
fn hide_sheet(book: &mut umya_spreadsheet::Spreadsheet, name: &str) -> (found: bool)
    requires
        sheets_are_read_in(*old(book)),
    ensures
        sheets_are_read_in(*final(book)),
        found <==> sheet_index(workbook_sheets(*old(book)), name@) is Some,
        workbook_sheets(*final(book)) == with_sheet_hidden(workbook_sheets(*old(book)), name@),
{
    match book.get_sheet_by_name_mut(name) {
        Some(sheet) => {
            sheet.set_state(umya_spreadsheet::SheetStateValues::Hidden);
            true
        },
        None => false,
    }
}

/// `Spreadsheet::get_sheet_by_name_mut`, then `Worksheet::get_cell_mut` and
/// `Cell::set_value_string`: stores the text, as text, in the cell at this
/// column and row of the first sheet of that name and returns `true`;
/// returns `false` and changes nothing where there is no such sheet. The
/// sheets are asked to be read in, as for `hide_sheet`.
#[verifier::external_body]
fn write_cell(
    book: &mut umya_spreadsheet::Spreadsheet,
    sheet: &str,
    column: u32,
    row: u32,
    text: &str,
) -> (found: bool)
    requires
        sheets_are_read_in(*old(book)),
        is_cell(column, row),
    ensures
        sheets_are_read_in(*final(book)),
        found <==> sheet_index(workbook_sheets(*old(book)), sheet@) is Some,
        workbook_sheets(*final(book)) == with_cell(
            workbook_sheets(*old(book)),
            sheet@,
            column,
            row,
            text@,
        ),
{
    match book.get_sheet_by_name_mut(sheet) {
        Some(found) => {
            found.get_cell_mut((column, row)).set_value_string(text);
            true
        },
        None => false,
    }
}

/// `DataValidations::default`: no rules.
#[verifier::external_body]
fn new_rules() -> (rules: umya_spreadsheet::DataValidations)
    ensures
        validation_rules(rules) == Seq::<ListRule>::empty(),
{
    umya_spreadsheet::DataValidations::default()
}

/// A `DataValidation` of type list, filled by its setters with what the
/// rule holds, its range written by `coordinate_from_index`, and appended
/// by `DataValidations::add_data_validation_list`.
#[verifier::external_body]
fn add_list_rule(rules: &mut umya_spreadsheet::DataValidations, rule: &ListValidation)
    requires
        is_cell(rule.column, rule.first_row),
        is_cell(rule.column, rule.last_row),
    ensures
        validation_rules(*final(rules)) == validation_rules(*old(rules)).push(rule@),
{
    let mut validation = umya_spreadsheet::DataValidation::default();
    validation.set_type(umya_spreadsheet::DataValidationValues::List);
    validation.set_formula1(rule.formula.clone());
    validation.set_allow_blank(rule.allow_blank);
    validation.set_show_error_message(rule.show_error_message);
    validation.set_error_title(rule.error_title.clone());
    validation.set_error_message(rule.error_message.clone());
    validation.set_show_input_message(rule.show_input_message);
    let first = umya_spreadsheet::helper::coordinate::coordinate_from_index(&rule.column, &rule.first_row);
    let last = umya_spreadsheet::helper::coordinate::coordinate_from_index(&rule.column, &rule.last_row);
    let mut cells = umya_spreadsheet::SequenceOfReferences::default();
    cells.set_sqref(format!("{}:{}", first, last));
    validation.set_sequence_of_references(cells);
    rules.add_data_validation_list(validation);
}

/// `Spreadsheet::get_sheet_by_name_mut`, then
/// `Worksheet::set_data_validations`: makes these the rules of the first
/// sheet of that name and returns `true`; returns `false` and changes
/// nothing where there is no such sheet. The sheets are asked to be read
/// in, as for `hide_sheet`.
#[verifier::external_body]
fn attach_rules(
    book: &mut umya_spreadsheet::Spreadsheet,
    sheet: &str,
    rules: umya_spreadsheet::DataValidations,
) -> (found: bool)
    requires
        sheets_are_read_in(*old(book)),
    ensures
        sheets_are_read_in(*final(book)),
        found <==> sheet_index(workbook_sheets(*old(book)), sheet@) is Some,
        workbook_sheets(*final(book)) == with_list_rules(
            workbook_sheets(*old(book)),
            sheet@,
            validation_rules(rules),
        ),
{
    match book.get_sheet_by_name_mut(sheet) {
        Some(found) => {
            found.set_data_validations(rules);
            true
        },
        None => false,
    }
}

// ------------------------------------------------------------ the template

/// The column titles of the data sheet.
pub open spec fn header_row() -> Seq<Seq<char>> {
    seq!["FirstName"@, "Surname"@, "OtherNames"@, "Gender"@, "ClassLevel"@]
}

/// The example row of the data sheet: a boy in the first IGCSE year.
pub open spec fn sample_row() -> Seq<Seq<char>> {
    seq![
        "John"@,
        "Doe"@,
        "Kwabena"@,
        gender_name(Gender::Male),
        class_level_name(ClassLevel::IGCSE1),
    ]
}

/// The cells of the data sheet when the first `titles` column titles and
/// the first `samples` example values are filled in: titles in row 1,
/// example values in row 2, from column 1 on.
pub open spec fn data_cells(titles: int, samples: int) -> Map<(u32, u32), Seq<char>> {
    Map::new(
        |cell: (u32, u32)|
            (cell.1 == 1 && 1 <= cell.0 <= titles) || (cell.1 == 2 && 1 <= cell.0 <= samples),
        |cell: (u32, u32)|
            if cell.1 == 1 {
                header_row()[cell.0 - 1]
            } else {
                sample_row()[cell.0 - 1]
            },
    )
}

/// The cells of the list sheet when the first `genders` genders and the
/// first `levels` class levels are filled in: genders down column 1, class
/// levels down column 2, from row 1 on.
pub open spec fn list_cells(genders: int, levels: int) -> Map<(u32, u32), Seq<char>> {
    Map::new(
        |cell: (u32, u32)|
            (cell.0 == 1 && 1 <= cell.1 <= genders) || (cell.0 == 2 && 1 <= cell.1 <= levels),
        |cell: (u32, u32)|
            if cell.0 == 1 {
                gender_name(Gender::all_spec()[cell.1 - 1])
            } else {
                class_level_name(ClassLevel::all_spec()[cell.1 - 1])
            },
    )
}

/// The rule of the gender column: column 4, rows 2 to 1000, against the
/// genders on the list sheet.
pub open spec fn gender_rule() -> ListRule {
    ListRule {
        formula: "ValidationLists"@ + "!$A$1:$A$"@ + decimal(Gender::all_spec().len()),
        column: 4,
        first_row: 2,
        last_row: 1000,
        allow_blank: true,
        show_error_message: true,
        show_input_message: false,
        error_title: "Invalid Gender"@,
        error_message: "Please select either Male or Female from the dropdown."@,
    }
}

/// The rule of the class-level column: column 5, rows 2 to 1000, against
/// the class levels on the list sheet.
pub open spec fn class_level_rule() -> ListRule {
    ListRule {
        formula: "ValidationLists"@ + "!$B$1:$B$"@ + decimal(ClassLevel::all_spec().len()),
        column: 5,
        first_row: 2,
        last_row: 1000,
        allow_blank: true,
        show_error_message: true,
        show_input_message: false,
        error_title: "Invalid Class Level"@,
        error_message: "Please select a valid class level from the dropdown."@,
    }
}

/// The data sheet of the template.
pub open spec fn data_sheet() -> SheetModel {
    SheetModel {
        name: "Sheet1"@,
        hidden: false,
        cells: data_cells(5, 5),
        list_rules: seq![gender_rule(), class_level_rule()],
    }
}

/// The list sheet of the template.
pub open spec fn list_sheet() -> SheetModel {
    SheetModel {
        name: "ValidationLists"@,
        hidden: true,
        cells: list_cells(2, 9),
        list_rules: Seq::empty(),
    }
}

/// The sheets of the template: the data sheet, then the hidden list sheet.
pub open spec fn template_sheets() -> Seq<SheetModel> {
    seq![data_sheet(), list_sheet()]
}

/// The two sheet names differ, and each is found where the template has it.
proof fn lemma_template_sheet_indices(first: SheetModel, second: SheetModel)
    requires
        first.name == "Sheet1"@,
        second.name == "ValidationLists"@,
    ensures
        sheet_index(seq![first], "ValidationLists"@) is None,
        sheet_index(seq![first, second], "Sheet1"@) == Some(0int),
        sheet_index(seq![first, second], "ValidationLists"@) == Some(1int),
{
    reveal_strlit("Sheet1");
    reveal_strlit("ValidationLists");
    assert("Sheet1"@.len() != "ValidationLists"@.len());
    reveal_with_fuel(sheet_index, 3);
    assert(seq![first].drop_first() =~= Seq::<SheetModel>::empty());
    assert(seq![first, second].drop_first() =~= seq![second]);
    assert(seq![second].drop_first() =~= Seq::<SheetModel>::empty());
}

/// The column titles of the data sheet.
fn header_texts() -> (titles: Vec<String>)
    ensures
        titles.deep_view() == header_row(),
        titles.len() == 5,
{
    let mut titles: Vec<String> = Vec::new();
    titles.push("FirstName".to_string());
    titles.push("Surname".to_string());
    titles.push("OtherNames".to_string());
    titles.push("Gender".to_string());
    titles.push("ClassLevel".to_string());
    proof {
        assert(titles.deep_view() =~= header_row());
    }
    titles
}

/// The example row of the data sheet.
fn sample_texts() -> (values: Vec<String>)
    ensures
        values.deep_view() == sample_row(),
        values.len() == 5,
{
    let mut values: Vec<String> = Vec::new();
    values.push("John".to_string());
    values.push("Doe".to_string());
    values.push("Kwabena".to_string());
    values.push(Gender::Male.to_string());
    values.push(ClassLevel::IGCSE1.to_string());
    proof {
        assert(values.deep_view() =~= sample_row());
    }
    values
}

/// The error of a sheet that is not where the template put it.
fn sheet_missing(sentence: &str) -> (error: AppError)
    ensures
        error matches AppError::Configuration(text) && text@ == sentence@,
{
    AppError::Configuration(sentence.to_string())
}

/// Fills one row of the data sheet, from column 1 on.
fn write_row(book: &mut umya_spreadsheet::Spreadsheet, row: u32, texts: &Vec<String>) -> (found:
    bool)
    requires
        row == 1 || row == 2,
        texts.len() == 5,
        sheets_are_read_in(*old(book)),
        workbook_sheets(*old(book)).len() == 2,
        workbook_sheets(*old(book))[0].name == "Sheet1"@,
        workbook_sheets(*old(book))[1].name == "ValidationLists"@,
    ensures
        found,
        sheets_are_read_in(*final(book)),
        workbook_sheets(*final(book)) == workbook_sheets(*old(book)).update(
            0,
            SheetModel {
                cells: workbook_sheets(*old(book))[0].cells.union_prefer_right(
                    Map::new(
                        |cell: (u32, u32)| cell.1 == row && 1 <= cell.0 <= 5,
                        |cell: (u32, u32)| texts.deep_view()[cell.0 - 1],
                    ),
                ),
                ..workbook_sheets(*old(book))[0]
            },
        ),
{
    let ghost before = workbook_sheets(*book);
    let ghost sheet = before[0];
    let mut column: u32 = 1;
    let mut i: usize = 0;
    proof {
        assert(before =~= seq![before[0], before[1]]);
        lemma_template_sheet_indices(before[0], before[1]);
        assert(sheet.cells.union_prefer_right(
            Map::new(
                |cell: (u32, u32)| cell.1 == row && 1 <= cell.0 <= 0,
                |cell: (u32, u32)| texts.deep_view()[cell.0 - 1],
            ),
        ) =~= sheet.cells);
        assert(before.update(0, sheet) =~= before);
    }
    while i < 5
        invariant
            i <= 5,
            column == i + 1,
            sheets_are_read_in(*book),
            texts.len() == 5,
            row == 1 || row == 2,
            before.len() == 2,
            sheet == before[0],
            sheet.name == "Sheet1"@,
            before[1].name == "ValidationLists"@,
            workbook_sheets(*book) == before.update(
                0,
                SheetModel {
                    cells: sheet.cells.union_prefer_right(
                        Map::new(
                            |cell: (u32, u32)| cell.1 == row && 1 <= cell.0 <= i,
                            |cell: (u32, u32)| texts.deep_view()[cell.0 - 1],
                        ),
                    ),
                    ..sheet
                },
            ),
        decreases 5 - i,
    {
        let ghost current = workbook_sheets(*book);
        proof {
            assert(current =~= seq![current[0], current[1]]);
            lemma_template_sheet_indices(current[0], current[1]);
        }
        let found = write_cell(book, "Sheet1", column, row, texts[i].as_str());
        proof {
            assert(found);
            assert(texts.deep_view()[i as int] == texts[i as int]@);
            assert(current[0].cells.insert((column, row), texts[i as int]@)
                =~= sheet.cells.union_prefer_right(
                Map::new(
                    |cell: (u32, u32)| cell.1 == row && 1 <= cell.0 <= i + 1,
                    |cell: (u32, u32)| texts.deep_view()[cell.0 - 1],
                ),
            ));
            assert(workbook_sheets(*book) =~= before.update(
                0,
                SheetModel {
                    cells: sheet.cells.union_prefer_right(
                        Map::new(
                            |cell: (u32, u32)| cell.1 == row && 1 <= cell.0 <= i + 1,
                            |cell: (u32, u32)| texts.deep_view()[cell.0 - 1],
                        ),
                    ),
                    ..sheet
                },
            ));
        }
        column += 1;
        i += 1;
    }
    true
}

/// Fills one list of the list sheet, down a column from row 1 on.
fn write_list(book: &mut umya_spreadsheet::Spreadsheet, column: u32, names: &Vec<String>) -> (found:
    bool)
    requires
        column == 1 || column == 2,
        names.len() <= 1000,
        sheets_are_read_in(*old(book)),
        workbook_sheets(*old(book)).len() == 2,
        workbook_sheets(*old(book))[0].name == "Sheet1"@,
        workbook_sheets(*old(book))[1].name == "ValidationLists"@,
    ensures
        found,
        sheets_are_read_in(*final(book)),
        workbook_sheets(*final(book)) == workbook_sheets(*old(book)).update(
            1,
            SheetModel {
                cells: workbook_sheets(*old(book))[1].cells.union_prefer_right(
                    Map::new(
                        |cell: (u32, u32)| cell.0 == column && 1 <= cell.1 <= names.len(),
                        |cell: (u32, u32)| names.deep_view()[cell.1 - 1],
                    ),
                ),
                ..workbook_sheets(*old(book))[1]
            },
        ),
{
    let ghost before = workbook_sheets(*book);
    let ghost sheet = before[1];
    let mut row: u32 = 1;
    let mut i: usize = 0;
    proof {
        assert(sheet.cells.union_prefer_right(
            Map::new(
                |cell: (u32, u32)| cell.0 == column && 1 <= cell.1 <= 0,
                |cell: (u32, u32)| names.deep_view()[cell.1 - 1],
            ),
        ) =~= sheet.cells);
        assert(before.update(1, sheet) =~= before);
    }
    while i < names.len()
        invariant
            i <= names.len(),
            names.len() <= 1000,
            row == i + 1,
            sheets_are_read_in(*book),
            column == 1 || column == 2,
            before.len() == 2,
            sheet == before[1],
            before[0].name == "Sheet1"@,
            sheet.name == "ValidationLists"@,
            workbook_sheets(*book) == before.update(
                1,
                SheetModel {
                    cells: sheet.cells.union_prefer_right(
                        Map::new(
                            |cell: (u32, u32)| cell.0 == column && 1 <= cell.1 <= i,
                            |cell: (u32, u32)| names.deep_view()[cell.1 - 1],
                        ),
                    ),
                    ..sheet
                },
            ),
        decreases names.len() - i,
    {
        let ghost current = workbook_sheets(*book);
        proof {
            assert(current =~= seq![current[0], current[1]]);
            lemma_template_sheet_indices(current[0], current[1]);
        }
        let found = write_cell(book, "ValidationLists", column, row, names[i].as_str());
        proof {
            assert(found);
            assert(names.deep_view()[i as int] == names[i as int]@);
            assert(current[1].cells.insert((column, row), names[i as int]@)
                =~= sheet.cells.union_prefer_right(
                Map::new(
                    |cell: (u32, u32)| cell.0 == column && 1 <= cell.1 <= i + 1,
                    |cell: (u32, u32)| names.deep_view()[cell.1 - 1],
                ),
            ));
            assert(workbook_sheets(*book) =~= before.update(
                1,
                SheetModel {
                    cells: sheet.cells.union_prefer_right(
                        Map::new(
                            |cell: (u32, u32)| cell.0 == column && 1 <= cell.1 <= i + 1,
                            |cell: (u32, u32)| names.deep_view()[cell.1 - 1],
                        ),
                    ),
                    ..sheet
                },
            ));
        }
        row += 1;
        i += 1;
    }
    true
}

/// The names of all genders, in order.
fn gender_names() -> (names: Vec<String>)
    ensures
        names.deep_view() == Gender::all_spec().map_values(|g: Gender| gender_name(g)),
        names.len() == 2,
{
    let all = Gender::all();
    let mut names: Vec<String> = Vec::new();
    let mut i: usize = 0;
    while i < all.len()
        invariant
            i <= all.len(),
            all@ == Gender::all_spec(),
            names.len() == i,
            forall|j: int| 0 <= j < i ==> (#[trigger] names[j])@ == gender_name(all[j]),
        decreases all.len() - i,
    {
        names.push(all[i].to_string());
        i += 1;
    }
    proof {
        assert(names.deep_view() =~= Gender::all_spec().map_values(|g: Gender| gender_name(g)));
    }
    names
}

/// The names of all class levels, in order.
fn class_level_names() -> (names: Vec<String>)
    ensures
        names.deep_view() == ClassLevel::all_spec().map_values(
            |l: ClassLevel| class_level_name(l),
        ),
        names.len() == 9,
{
    let all = ClassLevel::all();
    let mut names: Vec<String> = Vec::new();
    let mut i: usize = 0;
    while i < all.len()
        invariant
            i <= all.len(),
            all@ == ClassLevel::all_spec(),
            names.len() == i,
            forall|j: int| 0 <= j < i ==> (#[trigger] names[j])@ == class_level_name(all[j]),
        decreases all.len() - i,
    {
        names.push(all[i].to_string());
        i += 1;
    }
    proof {
        assert(names.deep_view() =~= ClassLevel::all_spec().map_values(
            |l: ClassLevel| class_level_name(l),
        ));
    }
    names
}

/// The rule that restricts `column`, rows 2 to 1000, to the `count` values
/// that the list sheet holds in the range that `range_start` begins.
fn list_rule(range_start: &str, count: usize, column: u32, title: &str, message: &str) -> (rule:
    ListValidation)
    ensures
        rule@ == (ListRule {
            formula: "ValidationLists"@ + range_start@ + decimal(count as nat),
            column,
            first_row: 2,
            last_row: 1000,
            allow_blank: true,
            show_error_message: true,
            show_input_message: false,
            error_title: title@,
            error_message: message@,
        }),
{
    let mut formula = String::from_str("ValidationLists");
    formula.append(range_start);
    formula.append(decimal_text(count).as_str());
    ListValidation {
        formula,
        column,
        first_row: 2,
        last_row: 1000,
        allow_blank: true,
        show_error_message: true,
        show_input_message: false,
        error_title: title.to_string(),
        error_message: message.to_string(),
    }
}

/// Builds the import template. The workbook holds the data sheet with the
/// column titles, the example row and the two list rules, and behind it the
/// hidden list sheet with every gender and every class level.
pub fn generate_excel_template() -> (result: Result<umya_spreadsheet::Spreadsheet, AppError>)
    ensures
        result matches Ok(book) && workbook_sheets(book) == template_sheets() && sheets_are_read_in(
            book,
        ),
{
    let mut book = new_workbook();
    proof {
        lemma_template_sheet_indices(blank_sheet("Sheet1"@), blank_sheet("ValidationLists"@));
    }
    match add_sheet(&mut book, "ValidationLists") {
        Ok(_) => {},
        Err(why) => {
            return Err(
                AppError::Configuration(
                    String::from_str("Failed to create sheet: ").concat(why.as_str()),
                ),
            );
        },
    }
    proof {
        assert(workbook_sheets(book) =~= seq![
            blank_sheet("Sheet1"@),
            blank_sheet("ValidationLists"@),
        ]);
    }
    if !hide_sheet(&mut book, "ValidationLists") {
        return Err(sheet_missing("Validation sheet not found"));
    }
    let genders = gender_names();
    let levels = class_level_names();
    if !write_list(&mut book, 1, &genders) {
        return Err(sheet_missing("Validation sheet not found"));
    }
    if !write_list(&mut book, 2, &levels) {
        return Err(sheet_missing("Validation sheet not found"));
    }
    let titles = header_texts();
    let samples = sample_texts();
    if !write_row(&mut book, 1, &titles) {
        return Err(sheet_missing("Main sheet 'Sheet1' not found"));
    }
    if !write_row(&mut book, 2, &samples) {
        return Err(sheet_missing("Main sheet 'Sheet1' not found"));
    }
    let mut rules = new_rules();
    let for_gender = list_rule(
        "!$A$1:$A$",
        genders.len(),
        4,
        "Invalid Gender",
        "Please select either Male or Female from the dropdown.",
    );
    let for_class_level = list_rule(
        "!$B$1:$B$",
        levels.len(),
        5,
        "Invalid Class Level",
        "Please select a valid class level from the dropdown.",
    );
    add_list_rule(&mut rules, &for_gender);
    add_list_rule(&mut rules, &for_class_level);
    let ghost filled = workbook_sheets(book);
    proof {
        assert(filled =~= seq![filled[0], filled[1]]);
        lemma_template_sheet_indices(filled[0], filled[1]);
        assert(validation_rules(rules) =~= seq![gender_rule(), class_level_rule()]);
        assert(filled[1].cells =~= list_cells(2, 9));
        assert(filled[0].cells =~= data_cells(5, 5));
    }
    if !attach_rules(&mut book, "Sheet1", rules) {
        return Err(sheet_missing("Main sheet 'Sheet1' not found"));
    }
    proof {
        assert(workbook_sheets(book) =~= template_sheets());
    }
    Ok(book)
}

/// The example row of the template reads back as the values it was written
/// from: its gender cell holds the name of `Male`, and its class-level cell
/// a name that `ClassLevel::from_str` reads as `IGCSE1`.
pub proof fn lemma_sample_row_reads_back()
    ensures
        template_sheets()[0].cells[(4u32, 2u32)] == gender_name(Gender::Male),
        class_level_named(template_sheets()[0].cells[(5u32, 2u32)]) == Some(ClassLevel::IGCSE1),
{
    lemma_class_level_name_round_trip(ClassLevel::IGCSE1);
}

/// The list sheet offers every gender and every class level, each by its
/// name, and the two rules of the data sheet cover exactly the rows that
/// hold them.
pub proof fn lemma_lists_offer_every_choice(gender: Gender, level: ClassLevel)
    ensures
        exists|row: u32|
            1 <= row <= 2 && #[trigger] template_sheets()[1].cells[(1u32, row)] == gender_name(
                gender,
            ),
        exists|row: u32|
            1 <= row <= 9 && #[trigger] template_sheets()[1].cells[(2u32, row)]
                == class_level_name(level),
        template_sheets()[0].list_rules[0].formula == "ValidationLists"@ + "!$A$1:$A$"@ + decimal(
            2,
        ),
        template_sheets()[0].list_rules[1].formula == "ValidationLists"@ + "!$B$1:$B$"@ + decimal(
            9,
        ),
{
    let cells = template_sheets()[1].cells;
    match gender {
        Gender::Male => {
            assert(cells[(1u32, 1u32)] == gender_name(gender));
        },
        Gender::Female => {
            assert(cells[(1u32, 2u32)] == gender_name(gender));
        },
    }
    match level {
        ClassLevel::LowerSecondaryYear8 => {
            assert(cells[(2u32, 1u32)] == class_level_name(level));
        },
        ClassLevel::LowerSecondaryYear9 => {
            assert(cells[(2u32, 2u32)] == class_level_name(level));
        },
        ClassLevel::IGCSE1 => {
            assert(cells[(2u32, 3u32)] == class_level_name(level));
        },
        ClassLevel::IGCSE2 => {
            assert(cells[(2u32, 4u32)] == class_level_name(level));
        },
        ClassLevel::WASSCE1 => {
            assert(cells[(2u32, 5u32)] == class_level_name(level));
        },
        ClassLevel::WASSCE2 => {
            assert(cells[(2u32, 6u32)] == class_level_name(level));
        },
        ClassLevel::WASSCE3 => {
            assert(cells[(2u32, 7u32)] == class_level_name(level));
        },
        ClassLevel::ALevel1 => {
            assert(cells[(2u32, 8u32)] == class_level_name(level));
        },
        ClassLevel::ALevel2 => {
            assert(cells[(2u32, 9u32)] == class_level_name(level));
        },
    }
}

} // verus!
