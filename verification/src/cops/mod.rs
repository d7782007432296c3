//! The rules, one module each.

pub mod http_status;
pub mod http_status_name_consistency;
pub mod pluralization_grammar;
pub mod refute_methods;
pub mod migration_class_name;
pub mod redundant_foreign_key;
pub mod order_arguments;
pub mod has_and_belongs_to_many;
pub mod ignored_columns_assignment;
pub mod require_dependency;
pub mod redundant_travel_back;
pub mod render_inline;
pub mod inquiry;
pub mod helper_instance_variable;
pub mod i18n_locale_assignment;
pub mod order_by_id;
pub mod request_referer;
pub mod redundant_active_record_all_method;
pub mod i18n_lazy_lookup;
pub mod freeze_time;
pub mod output;
pub mod output_safety;
pub mod read_write_attribute;
pub mod pluck_id;
pub mod negate_include;
pub mod pluck_in_where;
pub mod render_plain_text;
pub mod multiple_route_paths;
pub mod reflection_class_name;
pub mod index_method;
pub mod index_by;
pub mod index_with;
pub mod reversible_migration;
pub mod not_null_column;
pub mod lexically_scoped_action_filter;
pub mod http_positional_arguments;
pub mod redundant_presence_validation_on_belongs_to;
pub mod redundant_receiver_in_with_options;
pub mod has_many_or_has_one_dependent;
pub mod pick;
pub mod presence;
pub mod present;
pub mod inverse_of;
pub mod pluck;
pub mod match_route;
pub mod i18n_locale_texts;
pub mod relative_date_constant;
pub mod link_to_blank;
pub mod reversible_migration_method_definition;
pub mod response_parsed_body;
pub mod rake_environment;
pub mod mailer_name;
pub mod ignored_skip_action_filter_option;
pub mod redundant_allow_nil;
pub mod redirect_back_or_to;
