//! Typed access to the objects of the Lean 4 runtime.
use vstd::prelude::*;

pub mod object;
pub mod typed;
pub mod runtime;
pub mod frontend;
pub mod codegen;
pub mod layout_laws;

pub use object::{
    box_scalar, box_word, lemma_bool_read_back, lemma_box_is_scalar, lemma_box_unbox, lemma_ctor_read_back,
    lemma_string_read_back, lemma_obj_views, lemma_unbox_box,
    nil_value, obj_views, unbox_scalar, unbox_word, Obj, Value, MAX_CTOR_FIELDS, MAX_CTOR_SCALARS,
    MAX_CTOR_TAG, STRING_TAG,
};
pub use typed::{
    bool_number, environment_fields, is_plain_ctor, Environment, EnvironmentView, Except,
    ExceptView, Import, IoResult, IoResultView, Layout, LeanOption, List, ListView, Module, Name,
    Options, Pair, TObj, TObjRef,
};
pub use runtime::{
    accepts, drive, init_outcome, initializer_call, lemma_run_properties, io, lemma_run_order, outcome_view, response, run_actions,
    run_next, run_order, run_start, run_step, ActionView, EventView, RunAction, RunEvent, RunState,
    StateView,
};
pub use frontend::{
    eval_result, frontend_environment, import_list, import_value, imports_value, is_list_of_length,
    lakefile_path, lemma_import_list_elements, list_element,
    name_values,
};
pub use codegen::{
    closure_source, closures_source, contains_text, decimal, digit, digit_value,
    lemma_closure_source_declares, lemma_closures_source_holds, lemma_decimal_injective,
    lemma_decimal_numeral, numeral_value, generate_arg_idents, generate_arg_names,
    generate_fixed_closure, parsed_rust_file, piece, pieces, prettified_fixed_closures,
    printable_source, printed_rust_file,
    arg_types, sized_params, type_args, MAX_CLOSURE_ARITY,
};
pub use layout_laws::{
    lemma_bool_cells, lemma_environment_cells, lemma_except_cells, lemma_io_result_cells,
    lemma_list_cells, lemma_option_cells, lemma_pair_cells, lemma_small_boxes,
};

verus! {

} // verus!
