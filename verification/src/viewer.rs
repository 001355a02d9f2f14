//! The state of the frame viewer and how its controls change it.

use vstd::prelude::*;
use crate::layout::strings_view;

verus! {

/// How a filter compares a column with its value.
#[derive(Clone, Copy, Debug, PartialEq, Eq, Structural)]
pub enum FilterOperator {
    Equals,
    GreaterThan,
    LessThan,
    NotEquals,
    Contains,
}

/// The kinds of chart.
#[derive(Clone, Copy, Debug, PartialEq, Eq, Structural)]
pub enum ChartType {
    Bar,
    Line,
    Scatter,
}

/// What the viewer shows.
#[derive(Clone, Copy, Debug, PartialEq, Eq, Structural)]
pub enum LayoutView {
    Table,
    Chart(ChartType),
    DataProfile,
}

/// A theme of the viewer.
#[derive(Debug)]
pub enum Theme {
    Light,
    Dark,
    Custom(String),
}

/// The mathematical value of a theme.
pub enum ThemeView {
    Light,
    Dark,
    Custom(Seq<char>),
}

impl View for Theme {
    type V = ThemeView;

    open spec fn view(&self) -> ThemeView {
        match self {
            Theme::Light => ThemeView::Light,
            Theme::Dark => ThemeView::Dark,
            Theme::Custom(name) => ThemeView::Custom(name@),
        }
    }
}

/// One filter: a column, an operator and the value compared with.
#[derive(Debug)]
pub struct FilterCondition {
    pub column: String,
    pub operator: FilterOperator,
    pub value: String,
}

impl View for FilterCondition {
    type V = (Seq<char>, FilterOperator, Seq<char>);

    open spec fn view(&self) -> (Seq<char>, FilterOperator, Seq<char>) {
        (self.column@, self.operator, self.value@)
    }
}

/// A saved arrangement of columns with a theme.
#[derive(Debug)]
pub struct CustomLayout {
    pub name: String,
    pub column_order: Vec<String>,
    pub hidden_columns: Vec<String>,
    pub theme: Theme,
}

/// The views of a list of filters.
pub open spec fn conditions_view(v: Seq<FilterCondition>) -> Seq<(Seq<char>, FilterOperator, Seq<char>)> {
    v.map_values(|c: FilterCondition| c@)
}

/// The mathematical value of a viewer's state.
pub struct ViewerView {
    pub filter_conditions: Seq<(Seq<char>, FilterOperator, Seq<char>)>,
    pub column_order: Seq<Seq<char>>,
    pub hidden_columns: Seq<Seq<char>>,
    pub current_view: LayoutView,
    pub search_text: Seq<char>,
    pub theme: ThemeView,
    pub selected_x_column: Option<Seq<char>>,
    pub selected_y_column: Option<Seq<char>>,
}

/// The viewer's state; every filter names one of the frame's columns.
#[derive(Debug)]
pub struct ViewerSettings {
    filter_conditions: Vec<FilterCondition>,
    column_order: Vec<String>,
    hidden_columns: Vec<String>,
    column_rename_map: Vec<(String, String)>,
    current_view: LayoutView,
    search_text: String,
    theme: Theme,
    custom_layouts: Vec<CustomLayout>,
    selected_x_column: Option<String>,
    selected_y_column: Option<String>,
}

/// The view of an optional string.
pub open spec fn opt_string_view(o: Option<String>) -> Option<Seq<char>> {
    match o {
        Some(s) => Some(s@),
        None => None,
    }
}

impl View for ViewerSettings {
    type V = ViewerView;

    closed spec fn view(&self) -> ViewerView {
        ViewerView {
            filter_conditions: conditions_view(self.filter_conditions@),
            column_order: strings_view(self.column_order@),
            hidden_columns: strings_view(self.hidden_columns@),
            current_view: self.current_view,
            search_text: self.search_text@,
            theme: self.theme@,
            selected_x_column: opt_string_view(self.selected_x_column),
            selected_y_column: opt_string_view(self.selected_y_column),
        }
    }
}

/// Every filter of `v` names one of its columns.
pub open spec fn filters_name_columns(v: ViewerView) -> bool {
    forall|i: int| 0 <= i < v.filter_conditions.len() ==> v.column_order.contains(#[trigger] v.filter_conditions[i].0)
}

/// The state after `v` with `f` changed at `i`.
pub open spec fn with_condition(v: ViewerView, i: int, f: (Seq<char>, FilterOperator, Seq<char>)) -> ViewerView {
    ViewerView { filter_conditions: v.filter_conditions.update(i, f), ..v }
}

impl ViewerSettings {
    #[verifier::type_invariant]
    closed spec fn inv(&self) -> bool {
        filters_name_columns(self@)
    }

    /// The state of a viewer over a frame with the given columns: no
    /// filters, nothing hidden, the table shown, an empty search, the light
    /// theme, no chart columns chosen.
    pub fn new(column_order: Vec<String>) -> (r: ViewerSettings)
        ensures
            r@ == (ViewerView {
                filter_conditions: Seq::empty(),
                column_order: strings_view(column_order@),
                hidden_columns: Seq::empty(),
                current_view: LayoutView::Table,
                search_text: Seq::empty(),
                theme: ThemeView::Light,
                selected_x_column: None,
                selected_y_column: None,
            }),
            filters_name_columns(r@),
    {
        let r = ViewerSettings {
            filter_conditions: Vec::new(),
            column_order,
            hidden_columns: Vec::new(),
            column_rename_map: Vec::new(),
            current_view: LayoutView::Table,
            search_text: String::new(),
            theme: Theme::Light,
            custom_layouts: Vec::new(),
            selected_x_column: None,
            selected_y_column: None,
        };
        assert(conditions_view(r.filter_conditions@) =~= Seq::empty());
        assert(strings_view(r.hidden_columns@) =~= Seq::empty());
        r
    }

    /// Adds a filter on the first column, comparing for equality with an
    /// empty value.
    pub fn add_filter(&mut self)
        requires
            old(self)@.column_order.len() > 0,
        ensures
            final(self)@ == (ViewerView {
                filter_conditions: old(self)@.filter_conditions.push((old(self)@.column_order[0], FilterOperator::Equals, Seq::empty())),
                ..old(self)@
            }),
            filters_name_columns(final(self)@),
    {
        proof {
            use_type_invariant(&*self);
        }
        let condition = FilterCondition {
            column: self.column_order[0].clone(),
            operator: FilterOperator::Equals,
            value: String::new(),
        };
        let ghost before = self.filter_conditions@;
        let ghost cv = condition@;
        let mut conditions: Vec<FilterCondition> = Vec::new();
        std::mem::swap(&mut conditions, &mut self.filter_conditions);
        conditions.push(condition);
        proof {
            assert(conditions_view(conditions@) =~= conditions_view(before).push(cv));
            assert(strings_view(self.column_order@)[0] == cv.0);
            assert forall|i: int| 0 <= i < conditions_view(conditions@).len() implies
                strings_view(self.column_order@).contains(#[trigger] conditions_view(conditions@)[i].0) by {
                if i == before.len() {
                    assert(strings_view(self.column_order@)[0] == conditions_view(conditions@)[i].0);
                } else {
                    assert(conditions_view(conditions@)[i] == conditions_view(before)[i]);
                }
            }
        }
        self.filter_conditions = conditions;
    }

    /// Points the filter at `index` to the column at `column_index`.
    pub fn set_filter_column(&mut self, index: usize, column_index: usize)
        requires
            index < old(self)@.filter_conditions.len(),
            column_index < old(self)@.column_order.len(),
        ensures
            final(self)@ == with_condition(
                old(self)@,
                index as int,
                (
                    old(self)@.column_order[column_index as int],
                    old(self)@.filter_conditions[index as int].1,
                    old(self)@.filter_conditions[index as int].2,
                ),
            ),
            filters_name_columns(final(self)@),
    {
        proof {
            use_type_invariant(&*self);
        }
        let column = self.column_order[column_index].clone();
        proof {
            assert(strings_view(self.column_order@).contains(column@)) by {
                assert(strings_view(self.column_order@)[column_index as int] == column@);
            }
        }
        self.replace_condition(index, Some(column), None, None);
    }

    /// Sets the operator of the filter at `index`.
    pub fn set_filter_operator(&mut self, index: usize, operator: FilterOperator)
        requires
            index < old(self)@.filter_conditions.len(),
        ensures
            final(self)@ == with_condition(
                old(self)@,
                index as int,
                (old(self)@.filter_conditions[index as int].0, operator, old(self)@.filter_conditions[index as int].2),
            ),
            filters_name_columns(final(self)@),
    {
        proof {
            use_type_invariant(&*self);
        }
        self.replace_condition(index, None, Some(operator), None);
    }

    /// Sets the value of the filter at `index`.
    pub fn set_filter_value(&mut self, index: usize, value: String)
        requires
            index < old(self)@.filter_conditions.len(),
        ensures
            final(self)@ == with_condition(
                old(self)@,
                index as int,
                (old(self)@.filter_conditions[index as int].0, old(self)@.filter_conditions[index as int].1, value@),
            ),
            filters_name_columns(final(self)@),
    {
        proof {
            use_type_invariant(&*self);
        }
        self.replace_condition(index, None, None, Some(value));
    }

    /// Replaces parts of the filter at `index`; a new column must be one of the frame's.
    fn replace_condition(
        &mut self,
        index: usize,
        column: Option<String>,
        operator: Option<FilterOperator>,
        value: Option<String>,
    )
        requires
            index < old(self)@.filter_conditions.len(),
            column matches Some(c) ==> old(self)@.column_order.contains(c@),
        ensures
            final(self)@ == with_condition(
                old(self)@,
                index as int,
                (
                    match column { Some(c) => c@, None => old(self)@.filter_conditions[index as int].0 },
                    match operator { Some(o) => o, None => old(self)@.filter_conditions[index as int].1 },
                    match value { Some(v) => v@, None => old(self)@.filter_conditions[index as int].2 },
                ),
            ),
    {
        proof {
            use_type_invariant(&*self);
        }
        let old_condition = &self.filter_conditions[index];
        let condition = FilterCondition {
            column: match column {
                Some(c) => c,
                None => old_condition.column.clone(),
            },
            operator: match operator {
                Some(o) => o,
                None => old_condition.operator,
            },
            value: match value {
                Some(v) => v,
                None => old_condition.value.clone(),
            },
        };
        let ghost before = self.filter_conditions@;
        let ghost cv = condition@;
        let mut conditions: Vec<FilterCondition> = Vec::new();
        std::mem::swap(&mut conditions, &mut self.filter_conditions);
        conditions.set(index, condition);
        proof {
            assert(conditions_view(conditions@) =~= conditions_view(before).update(index as int, cv));
            assert forall|i: int| 0 <= i < conditions_view(conditions@).len() implies
                strings_view(self.column_order@).contains(#[trigger] conditions_view(conditions@)[i].0) by {
                if i != index {
                    assert(conditions_view(conditions@)[i] == conditions_view(before)[i]);
                }
            }
        }
        self.filter_conditions = conditions;
    }

    /// Replaces the search text.
    pub fn set_search_text(&mut self, text: String)
        ensures
            final(self)@ == (ViewerView { search_text: text@, ..old(self)@ }),
            filters_name_columns(final(self)@),
    {
        proof {
            use_type_invariant(&*self);
        }
        self.search_text = text;
    }

    /// Empties the search text.
    pub fn clear_search(&mut self)
        ensures
            final(self)@ == (ViewerView { search_text: Seq::empty(), ..old(self)@ }),
            filters_name_columns(final(self)@),
    {
        proof {
            use_type_invariant(&*self);
        }
        self.search_text = String::new();
    }

    /// Shows `view`.
    pub fn select_view(&mut self, view: LayoutView)
        ensures
            final(self)@ == (ViewerView { current_view: view, ..old(self)@ }),
            filters_name_columns(final(self)@),
    {
        proof {
            use_type_invariant(&*self);
        }
        self.current_view = view;
    }

    /// Makes `theme` the current theme.
    pub fn select_theme(&mut self, theme: Theme)
        ensures
            final(self)@ == (ViewerView { theme: theme@, ..old(self)@ }),
            filters_name_columns(final(self)@),
    {
        proof {
            use_type_invariant(&*self);
        }
        self.theme = theme;
    }

    /// What is shown.
    pub fn current_view(&self) -> (r: LayoutView)
        ensures
            r == self@.current_view,
    {
        self.current_view
    }

    /// The search text.
    pub fn search_text(&self) -> (r: &String)
        ensures
            r@ == self@.search_text,
    {
        &self.search_text
    }

    /// The filters.
    pub fn filter_conditions(&self) -> (r: &Vec<FilterCondition>)
        ensures
            conditions_view(r@) == self@.filter_conditions,
    {
        &self.filter_conditions
    }

    /// The frame's columns, in order.
    pub fn column_order(&self) -> (r: &Vec<String>)
        ensures
            strings_view(r@) == self@.column_order,
    {
        &self.column_order
    }

    /// The current theme.
    pub fn theme(&self) -> (r: &Theme)
        ensures
            r@ == self@.theme,
    {
        &self.theme
    }
}

} // verus!
