pub mod js_unknown;
pub mod js_boolean;
pub mod js_number;
pub mod js_string;
pub mod js_array;
pub mod js_array_buffer;
pub mod js_null;
pub mod js_exception;
pub mod js_object;
pub mod js_values_vec;
pub mod js_function;
pub mod js_promise;
pub mod thread_safe_function;
pub mod thread_safe_promise;
pub mod js_external;
pub mod js_object_value;
