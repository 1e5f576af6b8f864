//! The kinds of the nodes and tokens of a syntax tree.

use vstd::prelude::*;

verus! {

/// The kind of a node or token: a terminal of the grammar, a non-terminal of
/// the grammar, a comment, whitespace, or the root of a tree.
#[allow(non_camel_case_types)]
#[derive(Debug, Clone, Copy, PartialEq, Eq, Structural)]
pub enum SyntaxKind {
    MODE_TYPE_NAME,
    MODE_PLPGSQL_EXPR,
    MODE_PLPGSQL_ASSIGN1,
    MODE_PLPGSQL_ASSIGN2,
    MODE_PLPGSQL_ASSIGN3,
    Semicolon,
    CONCURRENTLY,
    CASCADE,
    RESTRICT,
    CALL,
    CREATE,
    ROLE,
    WITH,
    WITH_LA,
    PASSWORD,
    PARAM,
    NULL_P,
    ENCRYPTED,
    UNENCRYPTED,
    INHERIT,
    CONNECTION,
    LIMIT,
    VALID,
    UNTIL,
    USER,
    IDENT,
    SYSID,
    ADMIN,
    IN_P,
    GROUP_P,
    ALTER,
    DATABASE,
    ALL,
    DROP,
    IF_P,
    EXISTS,
    ADD_P,
    SCHEMA,
    AUTHORIZATION,
    NOT,
    SET,
    LOCAL,
    SESSION,
    TRANSACTION,
    CHARACTERISTICS,
    AS,
    TO,
    Equals,
    DEFAULT,
    FROM,
    CURRENT_P,
    TIME,
    ZONE,
    CATALOG_P,
    NAMES,
    XML_P,
    OPTION,
    SNAPSHOT,
    Dot,
    Comma,
    READ,
    UNCOMMITTED,
    COMMITTED,
    REPEATABLE,
    SERIALIZABLE,
    TRUE_P,
    FALSE_P,
    ON,
    LParen,
    RParen,
    RESET,
    ISOLATION,
    LEVEL,
    SHOW,
    CONSTRAINTS,
    DEFERRED,
    IMMEDIATE,
    CHECKPOINT,
    DISCARD,
    TEMP,
    TEMPORARY,
    PLANS,
    SEQUENCES,
    TABLE,
    TABLESPACE,
    OWNED,
    BY,
    INDEX,
    SEQUENCE,
    VIEW,
    MATERIALIZED,
    FOREIGN,
    ATTACH,
    PARTITION,
    DETACH,
    FINALIZE,
    COLUMN,
    EXPRESSION,
    STATISTICS,
    GENERATED,
    IDENTITY_P,
    TYPE_P,
    CONSTRAINT,
    VALIDATE,
    WITHOUT,
    OIDS,
    CLUSTER,
    LOGGED,
    UNLOGGED,
    ENABLE_P,
    TRIGGER,
    ALWAYS,
    REPLICA,
    DISABLE_P,
    RULE,
    NO,
    OF,
    OWNER,
    ACCESS,
    METHOD,
    ROW,
    SECURITY,
    FORCE,
    COLLATE,
    USING,
    NOTHING,
    FULL,
    RESTART,
    FOR,
    VALUES,
    ATTRIBUTE,
    CLOSE,
    COPY,
    PROGRAM,
    STDIN,
    STDOUT,
    BINARY,
    FREEZE,
    DELIMITER,
    CSV,
    HEADER_P,
    QUOTE,
    ESCAPE,
    Star,
    ENCODING,
    DELIMITERS,
    GLOBAL,
    OPTIONS,
    COMPRESSION,
    STORAGE,
    UNIQUE,
    PRIMARY,
    KEY,
    CHECK,
    STORED,
    REFERENCES,
    NULLS_P,
    DISTINCT,
    DEFERRABLE,
    INITIALLY,
    LIKE,
    INCLUDING,
    EXCLUDING,
    COMMENTS,
    DEFAULTS,
    INDEXES,
    EXCLUDE,
    INCLUDE,
    MATCH,
    PARTIAL,
    SIMPLE,
    OPERATOR,
    WHERE,
    UPDATE,
    DELETE_P,
    ACTION,
    INHERITS,
    COMMIT,
    ROWS,
    PRESERVE,
    DATA_P,
    REFRESH,
    CACHE,
    CYCLE,
    INCREMENT,
    MAXVALUE,
    MINVALUE,
    NAME_P,
    START,
    FCONST,
    Plus,
    Minus,
    LANGUAGE,
    HANDLER,
    TRUSTED,
    INLINE_P,
    VALIDATOR,
    PROCEDURAL,
    LOCATION,
    EXTENSION,
    VERSION_P,
    AGGREGATE,
    CAST,
    DOMAIN_P,
    FUNCTION,
    CLASS,
    FAMILY,
    PROCEDURE,
    ROUTINE,
    TRANSFORM,
    WRAPPER,
    SERVER,
    IMPORT_P,
    INTO,
    EXCEPT,
    MAPPING,
    POLICY,
    SELECT,
    INSERT,
    EXECUTE,
    AFTER,
    EACH,
    BEFORE,
    INSTEAD,
    OR,
    TRUNCATE,
    REFERENCING,
    NEW,
    OLD,
    STATEMENT,
    WHEN,
    EVENT,
    AND,
    SCONST,
    ASSERTION,
    ENUM_P,
    RANGE,
    TEXT_P,
    SEARCH,
    PARSER,
    DICTIONARY,
    TEMPLATE,
    CONFIGURATION,
    COLLATION,
    NONE,
    VALUE_P,
    RENAME,
    ORDER,
    RECHECK,
    REASSIGN,
    CONVERSION_P,
    SUBSCRIPTION,
    PUBLICATION,
    CONTINUE_P,
    COMMENT,
    IS,
    LARGE_P,
    OBJECT_P,
    LABEL,
    FETCH,
    MOVE,
    NEXT,
    PRIOR,
    FIRST_P,
    LAST_P,
    ABSOLUTE_P,
    RELATIVE_P,
    FORWARD,
    BACKWARD,
    GRANT,
    REVOKE,
    PRIVILEGES,
    SYSTEM_P,
    PARAMETER,
    TABLES,
    FUNCTIONS,
    PROCEDURES,
    ROUTINES,
    GRANTED,
    TYPES_P,
    SCHEMAS,
    ASC,
    DESC,
    NULLS_LA,
    RETURNS,
    REPLACE,
    OUT_P,
    INOUT,
    VARIADIC,
    Percent,
    SETOF,
    CALLED,
    INPUT_P,
    STRICT_P,
    IMMUTABLE,
    STABLE,
    VOLATILE,
    EXTERNAL,
    DEFINER,
    INVOKER,
    LEAKPROOF,
    COST,
    SUPPORT,
    PARALLEL,
    WINDOW,
    RETURN,
    BEGIN_P,
    ATOMIC,
    END_P,
    DO,
    IMPLICIT_P,
    ASSIGNMENT,
    SQL_P,
    REINDEX,
    DEPENDS,
    CURRENT_SCHEMA,
    SKIP,
    ALSO,
    NOTIFY,
    LISTEN,
    UNLISTEN,
    ABORT_P,
    ROLLBACK,
    SAVEPOINT,
    RELEASE,
    PREPARE,
    PREPARED,
    WORK,
    ONLY,
    WRITE,
    CHAIN,
    RECURSIVE,
    CASCADED,
    LOAD,
    VACUUM,
    ANALYZE,
    ANALYSE,
    FORMAT_LA,
    VERBOSE,
    EXPLAIN,
    DEALLOCATE,
    OVERRIDING,
    CONFLICT,
    RETURNING,
    LOCK_P,
    MODE,
    SHARE,
    EXCLUSIVE,
    NOWAIT,
    LOCKED,
    MERGE,
    MATCHED,
    THEN,
    DECLARE,
    CURSOR,
    SCROLL,
    ASENSITIVE,
    INSENSITIVE,
    HOLD,
    UNION,
    INTERSECT,
    DEPTH,
    BREADTH,
    TIES,
    OFFSET,
    ROLLUP,
    CUBE,
    GROUPING,
    SETS,
    HAVING,
    LATERAL_P,
    CROSS,
    JOIN,
    NATURAL,
    LEFT,
    RIGHT,
    INNER_P,
    OUTER_P,
    TABLESAMPLE,
    ORDINALITY,
    XMLTABLE,
    COLUMNS,
    XMLNAMESPACES,
    ARRAY,
    LBracket,
    RBracket,
    INT_P,
    INTEGER,
    SMALLINT,
    BIGINT,
    REAL,
    FLOAT_P,
    DOUBLE_P,
    PRECISION,
    DECIMAL_P,
    DEC,
    NUMERIC,
    BOOLEAN_P,
    BIT,
    CHARACTER,
    CHAR_P,
    VARCHAR,
    NATIONAL,
    NCHAR,
    VARYING,
    TIMESTAMP,
    INTERVAL,
    WITHOUT_LA,
    YEAR_P,
    MONTH_P,
    DAY_P,
    HOUR_P,
    MINUTE_P,
    SECOND_P,
    TYPECAST,
    AT,
    Slash,
    Caret,
    Less,
    Greater,
    LESS_EQUALS,
    GREATER_EQUALS,
    NOT_EQUALS,
    NOT_LA,
    ILIKE,
    SIMILAR,
    ISNULL,
    NOTNULL,
    OVERLAPS,
    UNKNOWN,
    BETWEEN,
    SYMMETRIC,
    DOCUMENT_P,
    NORMALIZED,
    CURRENT_DATE,
    CURRENT_TIME,
    CURRENT_TIMESTAMP,
    LOCALTIME,
    LOCALTIMESTAMP,
    CURRENT_ROLE,
    CURRENT_USER,
    SESSION_USER,
    SYSTEM_USER,
    CURRENT_CATALOG,
    EXTRACT,
    NORMALIZE,
    OVERLAY,
    POSITION,
    SUBSTRING,
    TREAT,
    TRIM,
    BOTH,
    LEADING,
    TRAILING,
    NULLIF,
    COALESCE,
    GREATEST,
    LEAST,
    XMLCONCAT,
    XMLELEMENT,
    XMLEXISTS,
    XMLFOREST,
    XMLPARSE,
    XMLPI,
    XMLROOT,
    XMLSERIALIZE,
    JSON_OBJECT,
    JSON_ARRAY,
    STANDALONE_P,
    YES_P,
    XMLATTRIBUTES,
    CONTENT_P,
    INDENT,
    WHITESPACE_P,
    STRIP_P,
    PASSING,
    REF_P,
    WITHIN,
    FILTER,
    OVER,
    GROUPS,
    UNBOUNDED,
    PRECEDING,
    FOLLOWING,
    OTHERS,
    ANY,
    SOME,
    Op,
    COLON_EQUALS,
    EQUALS_GREATER,
    NFC,
    NFD,
    NFKC,
    NFKD,
    PLACING,
    CASE,
    ELSE,
    Colon,
    ASYMMETRIC,
    JSON,
    SCALAR,
    KEYS,
    ABSENT,
    JSON_OBJECTAGG,
    JSON_ARRAYAGG,
    BCONST,
    XCONST,
    ICONST,
    FORMAT,
    OFF,
    UESCAPE,
    VIEWS,
    Dollarend,
    stmtmulti,
    Typename,
    PLpgSQL_Expr,
    PLAssignStmt,
    toplevel_stmt,
    stmt,
    TransactionStmtLegacy,
    AlterEventTrigStmt,
    AlterCollationStmt,
    AlterDatabaseStmt,
    AlterDatabaseSetStmt,
    AlterDefaultPrivilegesStmt,
    AlterDomainStmt,
    AlterEnumStmt,
    AlterExtensionStmt,
    AlterExtensionContentsStmt,
    AlterFdwStmt,
    AlterForeignServerStmt,
    AlterFunctionStmt,
    AlterGroupStmt,
    AlterObjectDependsStmt,
    AlterObjectSchemaStmt,
    AlterOwnerStmt,
    AlterOperatorStmt,
    AlterTypeStmt,
    AlterPolicyStmt,
    AlterSeqStmt,
    AlterSystemStmt,
    AlterTableStmt,
    AlterTblSpcStmt,
    AlterCompositeTypeStmt,
    AlterPublicationStmt,
    AlterRoleSetStmt,
    AlterRoleStmt,
    AlterSubscriptionStmt,
    AlterStatsStmt,
    AlterTSConfigurationStmt,
    AlterTSDictionaryStmt,
    AlterUserMappingStmt,
    AnalyzeStmt,
    CallStmt,
    CheckPointStmt,
    ClosePortalStmt,
    ClusterStmt,
    CommentStmt,
    ConstraintsSetStmt,
    CopyStmt,
    CreateAmStmt,
    CreateAsStmt,
    CreateAssertionStmt,
    CreateCastStmt,
    CreateConversionStmt,
    CreateDomainStmt,
    CreateExtensionStmt,
    CreateFdwStmt,
    CreateForeignServerStmt,
    CreateForeignTableStmt,
    CreateFunctionStmt,
    CreateGroupStmt,
    CreateMatViewStmt,
    CreateOpClassStmt,
    CreateOpFamilyStmt,
    CreatePublicationStmt,
    AlterOpFamilyStmt,
    CreatePolicyStmt,
    CreatePLangStmt,
    CreateSchemaStmt,
    CreateSeqStmt,
    CreateStmt,
    CreateSubscriptionStmt,
    CreateStatsStmt,
    CreateTableSpaceStmt,
    CreateTransformStmt,
    CreateTrigStmt,
    CreateEventTrigStmt,
    CreateRoleStmt,
    CreateUserStmt,
    CreateUserMappingStmt,
    CreatedbStmt,
    DeallocateStmt,
    DeclareCursorStmt,
    DefineStmt,
    DeleteStmt,
    DiscardStmt,
    DoStmt,
    DropCastStmt,
    DropOpClassStmt,
    DropOpFamilyStmt,
    DropOwnedStmt,
    DropStmt,
    DropSubscriptionStmt,
    DropTableSpaceStmt,
    DropTransformStmt,
    DropRoleStmt,
    DropUserMappingStmt,
    DropdbStmt,
    ExecuteStmt,
    ExplainStmt,
    FetchStmt,
    GrantStmt,
    GrantRoleStmt,
    ImportForeignSchemaStmt,
    IndexStmt,
    InsertStmt,
    ListenStmt,
    RefreshMatViewStmt,
    LoadStmt,
    LockStmt,
    MergeStmt,
    NotifyStmt,
    PrepareStmt,
    ReassignOwnedStmt,
    ReindexStmt,
    RemoveAggrStmt,
    RemoveFuncStmt,
    RemoveOperStmt,
    RenameStmt,
    RevokeStmt,
    RevokeRoleStmt,
    RuleStmt,
    SecLabelStmt,
    SelectStmt,
    TransactionStmt,
    TruncateStmt,
    UnlistenStmt,
    UpdateStmt,
    VacuumStmt,
    VariableResetStmt,
    VariableSetStmt,
    VariableShowStmt,
    ViewStmt,
    ColId,
    any_name,
    func_application,
    RoleId,
    opt_with,
    OptRoleList,
    CreateOptRoleElem,
    AlterOptRoleList,
    AlterOptRoleElem,
    Sconst,
    SignedIconst,
    role_list,
    Iconst,
    RoleSpec,
    name,
    opt_in_database,
    SetResetClause,
    add_drop,
    opt_single_name,
    OptSchemaEltList,
    schema_stmt,
    set_rest,
    transaction_mode_list,
    set_rest_more,
    var_name,
    var_list,
    generic_set,
    zone_value,
    opt_encoding,
    NonReservedWord_or_Sconst,
    document_or_content,
    var_value,
    opt_boolean_or_string,
    NumericOnly,
    ConstInterval,
    opt_interval,
    NonReservedWord,
    reset_rest,
    generic_reset,
    constraints_set_list,
    constraints_set_mode,
    qualified_name_list,
    relation_expr,
    alter_table_cmds,
    partition_cmd,
    opt_nowait,
    qualified_name,
    index_partition_cmd,
    alter_table_cmd,
    PartitionBoundSpec,
    opt_concurrently,
    columnDef,
    opt_column,
    alter_column_default,
    reloptions,
    column_storage,
    column_compression,
    generated_when,
    OptParenthesizedSeqOptList,
    alter_identity_column_option_list,
    opt_drop_behavior,
    opt_set_data,
    opt_collate_clause,
    alter_using,
    alter_generic_options,
    TableConstraint,
    ConstraintAttributeSpec,
    replica_identity,
    a_expr,
    reloption_list,
    reloption_elem,
    ColLabel,
    def_arg,
    alter_identity_column_option,
    SeqOptElem,
    hash_partbound,
    expr_list,
    hash_partbound_elem,
    alter_type_cmds,
    alter_type_cmd,
    TableFuncElement,
    cursor_name,
    opt_binary,
    opt_column_list,
    copy_from,
    opt_program,
    copy_file_name,
    copy_delimiter,
    copy_options,
    where_clause,
    PreparableStmt,
    copy_opt_list,
    copy_generic_opt_list,
    copy_opt_item,
    opt_as,
    columnList,
    opt_using,
    copy_generic_opt_elem,
    copy_generic_opt_arg,
    copy_generic_opt_arg_list,
    copy_generic_opt_arg_list_item,
    OptTemp,
    OptTableElementList,
    OptInherit,
    OptPartitionSpec,
    table_access_method_clause,
    OptWith,
    OnCommitOption,
    OptTableSpace,
    OptTypedTableElementList,
    TableElementList,
    TypedTableElementList,
    TableElement,
    TypedTableElement,
    TableLikeClause,
    columnOptions,
    opt_column_storage,
    opt_column_compression,
    create_generic_options,
    ColQualList,
    ColConstraint,
    ColConstraintElem,
    ConstraintAttr,
    opt_unique_null_treatment,
    opt_definition,
    OptConsTableSpace,
    opt_no_inherit,
    b_expr,
    key_match,
    key_actions,
    TableLikeOptionList,
    TableLikeOption,
    ConstraintElem,
    opt_c_include,
    ExistingIndex,
    access_method_clause,
    ExclusionConstraintList,
    OptWhereClause,
    columnElem,
    ExclusionConstraintElem,
    index_elem,
    any_operator,
    key_update,
    key_delete,
    key_action,
    PartitionSpec,
    part_params,
    part_elem,
    opt_collate,
    opt_qualified_name,
    func_expr_windowless,
    opt_name_list,
    stats_params,
    from_list,
    stats_param,
    create_as_target,
    opt_with_data,
    OptNoLog,
    create_mv_target,
    opt_reloptions,
    OptSeqOptList,
    SeqOptList,
    SimpleTypename,
    opt_by,
    NumericOnly_list,
    opt_or_replace,
    opt_trusted,
    opt_procedural,
    handler_name,
    opt_inline_handler,
    opt_validator,
    attrs,
    validator_clause,
    OptTableSpaceOwner,
    create_extension_opt_list,
    create_extension_opt_item,
    alter_extension_opt_list,
    alter_extension_opt_item,
    object_type_name,
    object_type_any_name,
    aggregate_with_argtypes,
    function_with_argtypes,
    operator_with_argtypes,
    opt_fdw_options,
    fdw_option,
    fdw_options,
    generic_option_list,
    generic_option_elem,
    alter_generic_option_list,
    alter_generic_option_elem,
    generic_option_name,
    generic_option_arg,
    opt_type,
    opt_foreign_server_version,
    foreign_server_version,
    import_qualification,
    import_qualification_type,
    relation_expr_list,
    auth_ident,
    RowSecurityDefaultPermissive,
    RowSecurityDefaultForCmd,
    RowSecurityDefaultToRole,
    RowSecurityOptionalExpr,
    RowSecurityOptionalWithCheck,
    RowSecurityOptionalToRole,
    row_security_cmd,
    am_type,
    TriggerActionTime,
    TriggerEvents,
    TriggerReferencing,
    TriggerForSpec,
    TriggerWhen,
    FUNCTION_or_PROCEDURE,
    func_name,
    TriggerFuncArgs,
    OptConstrFromTable,
    TriggerOneEvent,
    TriggerTransitions,
    TriggerTransition,
    TransitionOldOrNew,
    TransitionRowOrTable,
    TransitionRelName,
    TriggerForOptEach,
    TriggerForType,
    TriggerFuncArg,
    ConstraintAttributeElem,
    event_trigger_when_list,
    event_trigger_when_item,
    event_trigger_value_list,
    enable_trigger,
    aggr_args,
    definition,
    old_aggr_definition,
    OptTableFuncElementList,
    opt_enum_val_list,
    def_list,
    def_elem,
    func_type,
    reserved_keyword,
    qual_all_Op,
    old_aggr_list,
    old_aggr_elem,
    enum_val_list,
    opt_if_not_exists,
    opt_default,
    opt_opfamily,
    opclass_item_list,
    opclass_item,
    opclass_purpose,
    opt_recheck,
    type_list,
    opclass_drop_list,
    opclass_drop,
    any_name_list,
    drop_type_name,
    name_list,
    object_type_name_on_any_name,
    type_name_list,
    attr_name,
    opt_table,
    opt_restart_seqs,
    comment_text,
    opt_provider,
    security_label,
    fetch_args,
    from_in,
    opt_from_in,
    privileges,
    privilege_target,
    grantee_list,
    opt_grant_grant_option,
    opt_granted_by,
    privilege_list,
    privilege,
    parameter_name,
    parameter_name_list,
    function_with_argtypes_list,
    grantee,
    grant_role_opt_list,
    grant_role_opt,
    grant_role_opt_value,
    DefACLOptionList,
    DefACLAction,
    DefACLOption,
    defacl_privilege_target,
    opt_unique,
    index_params,
    opt_include,
    opt_asc_desc,
    opt_nulls_order,
    index_elem_options,
    index_including_params,
    func_args_with_defaults,
    func_return,
    opt_createfunc_opt_list,
    opt_routine_body,
    table_func_column_list,
    func_args_list,
    func_arg,
    func_args,
    type_func_name_keyword,
    indirection,
    func_args_with_defaults_list,
    func_arg_with_default,
    arg_class,
    param_name,
    type_function_name,
    aggr_args_list,
    aggr_arg,
    aggregate_with_argtypes_list,
    createfunc_opt_list,
    createfunc_opt_item,
    FunctionSetResetClause,
    func_as,
    transform_type_list,
    common_func_opt_item,
    ReturnStmt,
    routine_body_stmt_list,
    routine_body_stmt,
    table_func_column,
    alterfunc_opt_list,
    opt_restrict,
    operator_with_argtypes_list,
    all_Op,
    oper_argtypes,
    dostmt_opt_list,
    dostmt_opt_item,
    cast_context,
    opt_if_exists,
    transform_element_list,
    opt_reindex_option_list,
    reindex_target_relation,
    reindex_target_all,
    utility_option_list,
    opt_no,
    operator_def_list,
    operator_def_elem,
    operator_def_arg,
    pub_obj_list,
    extended_relation_expr,
    PublicationObjSpec,
    event,
    opt_instead,
    RuleActionList,
    RuleActionStmt,
    RuleActionMulti,
    RuleActionStmtOrEmpty,
    notify_payload,
    opt_transaction,
    opt_transaction_chain,
    transaction_mode_list_or_empty,
    iso_level,
    transaction_mode_item,
    opt_check_option,
    file_name,
    createdb_opt_list,
    createdb_opt_items,
    createdb_opt_item,
    createdb_opt_name,
    opt_equal,
    drop_option_list,
    drop_option,
    any_with,
    opt_verbose,
    cluster_index_specification,
    opt_full,
    opt_freeze,
    opt_analyze,
    opt_vacuum_relation_list,
    analyze_keyword,
    utility_option_elem,
    utility_option_name,
    utility_option_arg,
    vacuum_relation,
    vacuum_relation_list,
    ExplainableStmt,
    prep_type_clause,
    execute_param_clause,
    opt_with_clause,
    insert_target,
    insert_rest,
    opt_on_conflict,
    returning_clause,
    override_kind,
    insert_column_list,
    insert_column_item,
    opt_indirection,
    opt_conf_expr,
    set_clause_list,
    target_list,
    relation_expr_opt_alias,
    using_clause,
    where_or_current_clause,
    opt_lock,
    lock_type,
    from_clause,
    set_clause,
    set_target,
    set_target_list,
    table_ref,
    merge_when_list,
    merge_when_clause,
    opt_merge_when_condition,
    merge_update,
    merge_delete,
    merge_insert,
    merge_values_clause,
    cursor_options,
    opt_hold,
    select_no_parens,
    select_with_parens,
    simple_select,
    select_clause,
    sort_clause,
    opt_sort_clause,
    for_locking_clause,
    opt_select_limit,
    select_limit,
    opt_for_locking_clause,
    with_clause,
    opt_all_clause,
    opt_target_list,
    into_clause,
    group_clause,
    having_clause,
    window_clause,
    distinct_clause,
    values_clause,
    set_quantifier,
    cte_list,
    common_table_expr,
    opt_materialized,
    opt_search_clause,
    opt_cycle_clause,
    AexprConst,
    OptTempTableName,
    sortby_list,
    sortby,
    limit_clause,
    offset_clause,
    select_limit_value,
    select_offset_value,
    first_or_next,
    select_fetch_first_value,
    row_or_rows,
    c_expr,
    I_or_F_const,
    group_by_list,
    group_by_item,
    empty_grouping_set,
    cube_clause,
    rollup_clause,
    grouping_sets_clause,
    for_locking_items,
    for_locking_item,
    for_locking_strength,
    locked_rels_list,
    opt_nowait_or_skip,
    opt_alias_clause,
    tablesample_clause,
    func_table,
    func_alias_clause,
    xmltable,
    joined_table,
    alias_clause,
    join_type,
    join_qual,
    TableFuncElementList,
    opt_outer,
    opt_alias_clause_for_join_using,
    opt_repeatable_clause,
    opt_ordinality,
    rowsfrom_list,
    opt_col_def_list,
    rowsfrom_item,
    xmlexists_argument,
    xmltable_column_list,
    xml_namespace_list,
    xmltable_column_el,
    xmltable_column_option_list,
    xmltable_column_option_el,
    xml_namespace_el,
    opt_array_bounds,
    GenericType,
    Numeric,
    Bit,
    Character,
    ConstDatetime,
    ConstBit,
    ConstCharacter,
    opt_type_modifiers,
    opt_float,
    BitWithLength,
    BitWithoutLength,
    opt_varying,
    CharacterWithLength,
    CharacterWithoutLength,
    character,
    opt_timezone,
    interval_second,
    qual_Op,
    row,
    opt_asymmetric,
    in_expr,
    subquery_Op,
    sub_type,
    unicode_normal_form,
    json_predicate_type_constraint,
    json_key_uniqueness_constraint_opt,
    columnref,
    case_expr,
    func_expr,
    array_expr,
    explicit_row,
    implicit_row,
    func_arg_list,
    func_arg_expr,
    within_group_clause,
    filter_clause,
    over_clause,
    json_aggregate_func,
    func_expr_common_subexpr,
    extract_list,
    overlay_list,
    func_arg_list_opt,
    position_list,
    substr_list,
    trim_list,
    xml_attributes,
    xml_attribute_list,
    xml_whitespace_option,
    xml_root_version,
    opt_xml_root_standalone,
    xml_indent_option,
    json_name_and_value_list,
    json_object_constructor_null_clause_opt,
    json_output_clause_opt,
    json_value_expr_list,
    json_array_constructor_null_clause_opt,
    json_format_clause_opt,
    xml_attribute_el,
    xml_passing_mech,
    window_definition_list,
    window_definition,
    window_specification,
    opt_existing_window_name,
    opt_partition_clause,
    opt_frame_clause,
    frame_extent,
    opt_window_exclusion_clause,
    frame_bound,
    MathOp,
    array_expr_list,
    extract_arg,
    case_arg,
    when_clause_list,
    case_default,
    when_clause,
    opt_slice_bound,
    indirection_el,
    json_encoding_clause_opt,
    json_name_and_value,
    json_value_expr,
    json_array_aggregate_order_by_clause_opt,
    target_el,
    BareColLabel,
    ConstTypename,
    opt_distinct_clause,
    plassign_target,
    plassign_equals,
    unreserved_keyword,
    col_name_keyword,
    bare_label_keyword,
    Dollaraccept,
    parse_toplevel,
    C_COMMENT,
    SQL_COMMENT,
    Whitespace,
    Root,
}

/// The number of kinds.
pub const KIND_COUNT: u32 = 1223;

#[verifier::external_type_specification]
pub struct ExRawSyntaxKind(cstree::RawSyntaxKind);

/// The kind with the number `c`, for the numbers from 1216 on: the kind at
/// that position of the declaration, and `Root` beyond the last.
pub open spec fn spec_kind_from_1216(c: u32) -> SyntaxKind {
    match c {
        1216 => SyntaxKind::bare_label_keyword,
        1217 => SyntaxKind::Dollaraccept,
        1218 => SyntaxKind::parse_toplevel,
        1219 => SyntaxKind::C_COMMENT,
        1220 => SyntaxKind::SQL_COMMENT,
        1221 => SyntaxKind::Whitespace,
        1222 => SyntaxKind::Root,
        _ => SyntaxKind::Root,
    }
}

/// The kind with the number `c`, for the numbers from 1152 on: the kind at
/// that position of the declaration, and `Root` beyond the last.
pub open spec fn spec_kind_from_1152(c: u32) -> SyntaxKind {
    match c {
        1152 => SyntaxKind::json_key_uniqueness_constraint_opt,
        1153 => SyntaxKind::columnref,
        1154 => SyntaxKind::case_expr,
        1155 => SyntaxKind::func_expr,
        1156 => SyntaxKind::array_expr,
        1157 => SyntaxKind::explicit_row,
        1158 => SyntaxKind::implicit_row,
        1159 => SyntaxKind::func_arg_list,
        1160 => SyntaxKind::func_arg_expr,
        1161 => SyntaxKind::within_group_clause,
        1162 => SyntaxKind::filter_clause,
        1163 => SyntaxKind::over_clause,
        1164 => SyntaxKind::json_aggregate_func,
        1165 => SyntaxKind::func_expr_common_subexpr,
        1166 => SyntaxKind::extract_list,
        1167 => SyntaxKind::overlay_list,
        1168 => SyntaxKind::func_arg_list_opt,
        1169 => SyntaxKind::position_list,
        1170 => SyntaxKind::substr_list,
        1171 => SyntaxKind::trim_list,
        1172 => SyntaxKind::xml_attributes,
        1173 => SyntaxKind::xml_attribute_list,
        1174 => SyntaxKind::xml_whitespace_option,
        1175 => SyntaxKind::xml_root_version,
        1176 => SyntaxKind::opt_xml_root_standalone,
        1177 => SyntaxKind::xml_indent_option,
        1178 => SyntaxKind::json_name_and_value_list,
        1179 => SyntaxKind::json_object_constructor_null_clause_opt,
        1180 => SyntaxKind::json_output_clause_opt,
        1181 => SyntaxKind::json_value_expr_list,
        1182 => SyntaxKind::json_array_constructor_null_clause_opt,
        1183 => SyntaxKind::json_format_clause_opt,
        1184 => SyntaxKind::xml_attribute_el,
        1185 => SyntaxKind::xml_passing_mech,
        1186 => SyntaxKind::window_definition_list,
        1187 => SyntaxKind::window_definition,
        1188 => SyntaxKind::window_specification,
        1189 => SyntaxKind::opt_existing_window_name,
        1190 => SyntaxKind::opt_partition_clause,
        1191 => SyntaxKind::opt_frame_clause,
        1192 => SyntaxKind::frame_extent,
        1193 => SyntaxKind::opt_window_exclusion_clause,
        1194 => SyntaxKind::frame_bound,
        1195 => SyntaxKind::MathOp,
        1196 => SyntaxKind::array_expr_list,
        1197 => SyntaxKind::extract_arg,
        1198 => SyntaxKind::case_arg,
        1199 => SyntaxKind::when_clause_list,
        1200 => SyntaxKind::case_default,
        1201 => SyntaxKind::when_clause,
        1202 => SyntaxKind::opt_slice_bound,
        1203 => SyntaxKind::indirection_el,
        1204 => SyntaxKind::json_encoding_clause_opt,
        1205 => SyntaxKind::json_name_and_value,
        1206 => SyntaxKind::json_value_expr,
        1207 => SyntaxKind::json_array_aggregate_order_by_clause_opt,
        1208 => SyntaxKind::target_el,
        1209 => SyntaxKind::BareColLabel,
        1210 => SyntaxKind::ConstTypename,
        1211 => SyntaxKind::opt_distinct_clause,
        1212 => SyntaxKind::plassign_target,
        1213 => SyntaxKind::plassign_equals,
        1214 => SyntaxKind::unreserved_keyword,
        1215 => SyntaxKind::col_name_keyword,
        _ => spec_kind_from_1216(c),
    }
}

/// The kind with the number `c`, for the numbers from 1088 on: the kind at
/// that position of the declaration, and `Root` beyond the last.
pub open spec fn spec_kind_from_1088(c: u32) -> SyntaxKind {
    match c {
        1088 => SyntaxKind::row_or_rows,
        1089 => SyntaxKind::c_expr,
        1090 => SyntaxKind::I_or_F_const,
        1091 => SyntaxKind::group_by_list,
        1092 => SyntaxKind::group_by_item,
        1093 => SyntaxKind::empty_grouping_set,
        1094 => SyntaxKind::cube_clause,
        1095 => SyntaxKind::rollup_clause,
        1096 => SyntaxKind::grouping_sets_clause,
        1097 => SyntaxKind::for_locking_items,
        1098 => SyntaxKind::for_locking_item,
        1099 => SyntaxKind::for_locking_strength,
        1100 => SyntaxKind::locked_rels_list,
        1101 => SyntaxKind::opt_nowait_or_skip,
        1102 => SyntaxKind::opt_alias_clause,
        1103 => SyntaxKind::tablesample_clause,
        1104 => SyntaxKind::func_table,
        1105 => SyntaxKind::func_alias_clause,
        1106 => SyntaxKind::xmltable,
        1107 => SyntaxKind::joined_table,
        1108 => SyntaxKind::alias_clause,
        1109 => SyntaxKind::join_type,
        1110 => SyntaxKind::join_qual,
        1111 => SyntaxKind::TableFuncElementList,
        1112 => SyntaxKind::opt_outer,
        1113 => SyntaxKind::opt_alias_clause_for_join_using,
        1114 => SyntaxKind::opt_repeatable_clause,
        1115 => SyntaxKind::opt_ordinality,
        1116 => SyntaxKind::rowsfrom_list,
        1117 => SyntaxKind::opt_col_def_list,
        1118 => SyntaxKind::rowsfrom_item,
        1119 => SyntaxKind::xmlexists_argument,
        1120 => SyntaxKind::xmltable_column_list,
        1121 => SyntaxKind::xml_namespace_list,
        1122 => SyntaxKind::xmltable_column_el,
        1123 => SyntaxKind::xmltable_column_option_list,
        1124 => SyntaxKind::xmltable_column_option_el,
        1125 => SyntaxKind::xml_namespace_el,
        1126 => SyntaxKind::opt_array_bounds,
        1127 => SyntaxKind::GenericType,
        1128 => SyntaxKind::Numeric,
        1129 => SyntaxKind::Bit,
        1130 => SyntaxKind::Character,
        1131 => SyntaxKind::ConstDatetime,
        1132 => SyntaxKind::ConstBit,
        1133 => SyntaxKind::ConstCharacter,
        1134 => SyntaxKind::opt_type_modifiers,
        1135 => SyntaxKind::opt_float,
        1136 => SyntaxKind::BitWithLength,
        1137 => SyntaxKind::BitWithoutLength,
        1138 => SyntaxKind::opt_varying,
        1139 => SyntaxKind::CharacterWithLength,
        1140 => SyntaxKind::CharacterWithoutLength,
        1141 => SyntaxKind::character,
        1142 => SyntaxKind::opt_timezone,
        1143 => SyntaxKind::interval_second,
        1144 => SyntaxKind::qual_Op,
        1145 => SyntaxKind::row,
        1146 => SyntaxKind::opt_asymmetric,
        1147 => SyntaxKind::in_expr,
        1148 => SyntaxKind::subquery_Op,
        1149 => SyntaxKind::sub_type,
        1150 => SyntaxKind::unicode_normal_form,
        1151 => SyntaxKind::json_predicate_type_constraint,
        _ => spec_kind_from_1152(c),
    }
}

/// The kind with the number `c`, for the numbers from 1024 on: the kind at
/// that position of the declaration, and `Root` beyond the last.
pub open spec fn spec_kind_from_1024(c: u32) -> SyntaxKind {
    match c {
        1024 => SyntaxKind::insert_rest,
        1025 => SyntaxKind::opt_on_conflict,
        1026 => SyntaxKind::returning_clause,
        1027 => SyntaxKind::override_kind,
        1028 => SyntaxKind::insert_column_list,
        1029 => SyntaxKind::insert_column_item,
        1030 => SyntaxKind::opt_indirection,
        1031 => SyntaxKind::opt_conf_expr,
        1032 => SyntaxKind::set_clause_list,
        1033 => SyntaxKind::target_list,
        1034 => SyntaxKind::relation_expr_opt_alias,
        1035 => SyntaxKind::using_clause,
        1036 => SyntaxKind::where_or_current_clause,
        1037 => SyntaxKind::opt_lock,
        1038 => SyntaxKind::lock_type,
        1039 => SyntaxKind::from_clause,
        1040 => SyntaxKind::set_clause,
        1041 => SyntaxKind::set_target,
        1042 => SyntaxKind::set_target_list,
        1043 => SyntaxKind::table_ref,
        1044 => SyntaxKind::merge_when_list,
        1045 => SyntaxKind::merge_when_clause,
        1046 => SyntaxKind::opt_merge_when_condition,
        1047 => SyntaxKind::merge_update,
        1048 => SyntaxKind::merge_delete,
        1049 => SyntaxKind::merge_insert,
        1050 => SyntaxKind::merge_values_clause,
        1051 => SyntaxKind::cursor_options,
        1052 => SyntaxKind::opt_hold,
        1053 => SyntaxKind::select_no_parens,
        1054 => SyntaxKind::select_with_parens,
        1055 => SyntaxKind::simple_select,
        1056 => SyntaxKind::select_clause,
        1057 => SyntaxKind::sort_clause,
        1058 => SyntaxKind::opt_sort_clause,
        1059 => SyntaxKind::for_locking_clause,
        1060 => SyntaxKind::opt_select_limit,
        1061 => SyntaxKind::select_limit,
        1062 => SyntaxKind::opt_for_locking_clause,
        1063 => SyntaxKind::with_clause,
        1064 => SyntaxKind::opt_all_clause,
        1065 => SyntaxKind::opt_target_list,
        1066 => SyntaxKind::into_clause,
        1067 => SyntaxKind::group_clause,
        1068 => SyntaxKind::having_clause,
        1069 => SyntaxKind::window_clause,
        1070 => SyntaxKind::distinct_clause,
        1071 => SyntaxKind::values_clause,
        1072 => SyntaxKind::set_quantifier,
        1073 => SyntaxKind::cte_list,
        1074 => SyntaxKind::common_table_expr,
        1075 => SyntaxKind::opt_materialized,
        1076 => SyntaxKind::opt_search_clause,
        1077 => SyntaxKind::opt_cycle_clause,
        1078 => SyntaxKind::AexprConst,
        1079 => SyntaxKind::OptTempTableName,
        1080 => SyntaxKind::sortby_list,
        1081 => SyntaxKind::sortby,
        1082 => SyntaxKind::limit_clause,
        1083 => SyntaxKind::offset_clause,
        1084 => SyntaxKind::select_limit_value,
        1085 => SyntaxKind::select_offset_value,
        1086 => SyntaxKind::first_or_next,
        1087 => SyntaxKind::select_fetch_first_value,
        _ => spec_kind_from_1088(c),
    }
}

/// The kind with the number `c`, for the numbers from 960 on: the kind at
/// that position of the declaration, and `Root` beyond the last.
pub open spec fn spec_kind_from_960(c: u32) -> SyntaxKind {
    match c {
        960 => SyntaxKind::ReturnStmt,
        961 => SyntaxKind::routine_body_stmt_list,
        962 => SyntaxKind::routine_body_stmt,
        963 => SyntaxKind::table_func_column,
        964 => SyntaxKind::alterfunc_opt_list,
        965 => SyntaxKind::opt_restrict,
        966 => SyntaxKind::operator_with_argtypes_list,
        967 => SyntaxKind::all_Op,
        968 => SyntaxKind::oper_argtypes,
        969 => SyntaxKind::dostmt_opt_list,
        970 => SyntaxKind::dostmt_opt_item,
        971 => SyntaxKind::cast_context,
        972 => SyntaxKind::opt_if_exists,
        973 => SyntaxKind::transform_element_list,
        974 => SyntaxKind::opt_reindex_option_list,
        975 => SyntaxKind::reindex_target_relation,
        976 => SyntaxKind::reindex_target_all,
        977 => SyntaxKind::utility_option_list,
        978 => SyntaxKind::opt_no,
        979 => SyntaxKind::operator_def_list,
        980 => SyntaxKind::operator_def_elem,
        981 => SyntaxKind::operator_def_arg,
        982 => SyntaxKind::pub_obj_list,
        983 => SyntaxKind::extended_relation_expr,
        984 => SyntaxKind::PublicationObjSpec,
        985 => SyntaxKind::event,
        986 => SyntaxKind::opt_instead,
        987 => SyntaxKind::RuleActionList,
        988 => SyntaxKind::RuleActionStmt,
        989 => SyntaxKind::RuleActionMulti,
        990 => SyntaxKind::RuleActionStmtOrEmpty,
        991 => SyntaxKind::notify_payload,
        992 => SyntaxKind::opt_transaction,
        993 => SyntaxKind::opt_transaction_chain,
        994 => SyntaxKind::transaction_mode_list_or_empty,
        995 => SyntaxKind::iso_level,
        996 => SyntaxKind::transaction_mode_item,
        997 => SyntaxKind::opt_check_option,
        998 => SyntaxKind::file_name,
        999 => SyntaxKind::createdb_opt_list,
        1000 => SyntaxKind::createdb_opt_items,
        1001 => SyntaxKind::createdb_opt_item,
        1002 => SyntaxKind::createdb_opt_name,
        1003 => SyntaxKind::opt_equal,
        1004 => SyntaxKind::drop_option_list,
        1005 => SyntaxKind::drop_option,
        1006 => SyntaxKind::any_with,
        1007 => SyntaxKind::opt_verbose,
        1008 => SyntaxKind::cluster_index_specification,
        1009 => SyntaxKind::opt_full,
        1010 => SyntaxKind::opt_freeze,
        1011 => SyntaxKind::opt_analyze,
        1012 => SyntaxKind::opt_vacuum_relation_list,
        1013 => SyntaxKind::analyze_keyword,
        1014 => SyntaxKind::utility_option_elem,
        1015 => SyntaxKind::utility_option_name,
        1016 => SyntaxKind::utility_option_arg,
        1017 => SyntaxKind::vacuum_relation,
        1018 => SyntaxKind::vacuum_relation_list,
        1019 => SyntaxKind::ExplainableStmt,
        1020 => SyntaxKind::prep_type_clause,
        1021 => SyntaxKind::execute_param_clause,
        1022 => SyntaxKind::opt_with_clause,
        1023 => SyntaxKind::insert_target,
        _ => spec_kind_from_1024(c),
    }
}

/// The kind with the number `c`, for the numbers from 896 on: the kind at
/// that position of the declaration, and `Root` beyond the last.
pub open spec fn spec_kind_from_896(c: u32) -> SyntaxKind {
    match c {
        896 => SyntaxKind::opclass_drop,
        897 => SyntaxKind::any_name_list,
        898 => SyntaxKind::drop_type_name,
        899 => SyntaxKind::name_list,
        900 => SyntaxKind::object_type_name_on_any_name,
        901 => SyntaxKind::type_name_list,
        902 => SyntaxKind::attr_name,
        903 => SyntaxKind::opt_table,
        904 => SyntaxKind::opt_restart_seqs,
        905 => SyntaxKind::comment_text,
        906 => SyntaxKind::opt_provider,
        907 => SyntaxKind::security_label,
        908 => SyntaxKind::fetch_args,
        909 => SyntaxKind::from_in,
        910 => SyntaxKind::opt_from_in,
        911 => SyntaxKind::privileges,
        912 => SyntaxKind::privilege_target,
        913 => SyntaxKind::grantee_list,
        914 => SyntaxKind::opt_grant_grant_option,
        915 => SyntaxKind::opt_granted_by,
        916 => SyntaxKind::privilege_list,
        917 => SyntaxKind::privilege,
        918 => SyntaxKind::parameter_name,
        919 => SyntaxKind::parameter_name_list,
        920 => SyntaxKind::function_with_argtypes_list,
        921 => SyntaxKind::grantee,
        922 => SyntaxKind::grant_role_opt_list,
        923 => SyntaxKind::grant_role_opt,
        924 => SyntaxKind::grant_role_opt_value,
        925 => SyntaxKind::DefACLOptionList,
        926 => SyntaxKind::DefACLAction,
        927 => SyntaxKind::DefACLOption,
        928 => SyntaxKind::defacl_privilege_target,
        929 => SyntaxKind::opt_unique,
        930 => SyntaxKind::index_params,
        931 => SyntaxKind::opt_include,
        932 => SyntaxKind::opt_asc_desc,
        933 => SyntaxKind::opt_nulls_order,
        934 => SyntaxKind::index_elem_options,
        935 => SyntaxKind::index_including_params,
        936 => SyntaxKind::func_args_with_defaults,
        937 => SyntaxKind::func_return,
        938 => SyntaxKind::opt_createfunc_opt_list,
        939 => SyntaxKind::opt_routine_body,
        940 => SyntaxKind::table_func_column_list,
        941 => SyntaxKind::func_args_list,
        942 => SyntaxKind::func_arg,
        943 => SyntaxKind::func_args,
        944 => SyntaxKind::type_func_name_keyword,
        945 => SyntaxKind::indirection,
        946 => SyntaxKind::func_args_with_defaults_list,
        947 => SyntaxKind::func_arg_with_default,
        948 => SyntaxKind::arg_class,
        949 => SyntaxKind::param_name,
        950 => SyntaxKind::type_function_name,
        951 => SyntaxKind::aggr_args_list,
        952 => SyntaxKind::aggr_arg,
        953 => SyntaxKind::aggregate_with_argtypes_list,
        954 => SyntaxKind::createfunc_opt_list,
        955 => SyntaxKind::createfunc_opt_item,
        956 => SyntaxKind::FunctionSetResetClause,
        957 => SyntaxKind::func_as,
        958 => SyntaxKind::transform_type_list,
        959 => SyntaxKind::common_func_opt_item,
        _ => spec_kind_from_960(c),
    }
}

/// The kind with the number `c`, for the numbers from 832 on: the kind at
/// that position of the declaration, and `Root` beyond the last.
pub open spec fn spec_kind_from_832(c: u32) -> SyntaxKind {
    match c {
        832 => SyntaxKind::alter_generic_option_list,
        833 => SyntaxKind::alter_generic_option_elem,
        834 => SyntaxKind::generic_option_name,
        835 => SyntaxKind::generic_option_arg,
        836 => SyntaxKind::opt_type,
        837 => SyntaxKind::opt_foreign_server_version,
        838 => SyntaxKind::foreign_server_version,
        839 => SyntaxKind::import_qualification,
        840 => SyntaxKind::import_qualification_type,
        841 => SyntaxKind::relation_expr_list,
        842 => SyntaxKind::auth_ident,
        843 => SyntaxKind::RowSecurityDefaultPermissive,
        844 => SyntaxKind::RowSecurityDefaultForCmd,
        845 => SyntaxKind::RowSecurityDefaultToRole,
        846 => SyntaxKind::RowSecurityOptionalExpr,
        847 => SyntaxKind::RowSecurityOptionalWithCheck,
        848 => SyntaxKind::RowSecurityOptionalToRole,
        849 => SyntaxKind::row_security_cmd,
        850 => SyntaxKind::am_type,
        851 => SyntaxKind::TriggerActionTime,
        852 => SyntaxKind::TriggerEvents,
        853 => SyntaxKind::TriggerReferencing,
        854 => SyntaxKind::TriggerForSpec,
        855 => SyntaxKind::TriggerWhen,
        856 => SyntaxKind::FUNCTION_or_PROCEDURE,
        857 => SyntaxKind::func_name,
        858 => SyntaxKind::TriggerFuncArgs,
        859 => SyntaxKind::OptConstrFromTable,
        860 => SyntaxKind::TriggerOneEvent,
        861 => SyntaxKind::TriggerTransitions,
        862 => SyntaxKind::TriggerTransition,
        863 => SyntaxKind::TransitionOldOrNew,
        864 => SyntaxKind::TransitionRowOrTable,
        865 => SyntaxKind::TransitionRelName,
        866 => SyntaxKind::TriggerForOptEach,
        867 => SyntaxKind::TriggerForType,
        868 => SyntaxKind::TriggerFuncArg,
        869 => SyntaxKind::ConstraintAttributeElem,
        870 => SyntaxKind::event_trigger_when_list,
        871 => SyntaxKind::event_trigger_when_item,
        872 => SyntaxKind::event_trigger_value_list,
        873 => SyntaxKind::enable_trigger,
        874 => SyntaxKind::aggr_args,
        875 => SyntaxKind::definition,
        876 => SyntaxKind::old_aggr_definition,
        877 => SyntaxKind::OptTableFuncElementList,
        878 => SyntaxKind::opt_enum_val_list,
        879 => SyntaxKind::def_list,
        880 => SyntaxKind::def_elem,
        881 => SyntaxKind::func_type,
        882 => SyntaxKind::reserved_keyword,
        883 => SyntaxKind::qual_all_Op,
        884 => SyntaxKind::old_aggr_list,
        885 => SyntaxKind::old_aggr_elem,
        886 => SyntaxKind::enum_val_list,
        887 => SyntaxKind::opt_if_not_exists,
        888 => SyntaxKind::opt_default,
        889 => SyntaxKind::opt_opfamily,
        890 => SyntaxKind::opclass_item_list,
        891 => SyntaxKind::opclass_item,
        892 => SyntaxKind::opclass_purpose,
        893 => SyntaxKind::opt_recheck,
        894 => SyntaxKind::type_list,
        895 => SyntaxKind::opclass_drop_list,
        _ => spec_kind_from_896(c),
    }
}

/// The kind with the number `c`, for the numbers from 768 on: the kind at
/// that position of the declaration, and `Root` beyond the last.
pub open spec fn spec_kind_from_768(c: u32) -> SyntaxKind {
    match c {
        768 => SyntaxKind::opt_definition,
        769 => SyntaxKind::OptConsTableSpace,
        770 => SyntaxKind::opt_no_inherit,
        771 => SyntaxKind::b_expr,
        772 => SyntaxKind::key_match,
        773 => SyntaxKind::key_actions,
        774 => SyntaxKind::TableLikeOptionList,
        775 => SyntaxKind::TableLikeOption,
        776 => SyntaxKind::ConstraintElem,
        777 => SyntaxKind::opt_c_include,
        778 => SyntaxKind::ExistingIndex,
        779 => SyntaxKind::access_method_clause,
        780 => SyntaxKind::ExclusionConstraintList,
        781 => SyntaxKind::OptWhereClause,
        782 => SyntaxKind::columnElem,
        783 => SyntaxKind::ExclusionConstraintElem,
        784 => SyntaxKind::index_elem,
        785 => SyntaxKind::any_operator,
        786 => SyntaxKind::key_update,
        787 => SyntaxKind::key_delete,
        788 => SyntaxKind::key_action,
        789 => SyntaxKind::PartitionSpec,
        790 => SyntaxKind::part_params,
        791 => SyntaxKind::part_elem,
        792 => SyntaxKind::opt_collate,
        793 => SyntaxKind::opt_qualified_name,
        794 => SyntaxKind::func_expr_windowless,
        795 => SyntaxKind::opt_name_list,
        796 => SyntaxKind::stats_params,
        797 => SyntaxKind::from_list,
        798 => SyntaxKind::stats_param,
        799 => SyntaxKind::create_as_target,
        800 => SyntaxKind::opt_with_data,
        801 => SyntaxKind::OptNoLog,
        802 => SyntaxKind::create_mv_target,
        803 => SyntaxKind::opt_reloptions,
        804 => SyntaxKind::OptSeqOptList,
        805 => SyntaxKind::SeqOptList,
        806 => SyntaxKind::SimpleTypename,
        807 => SyntaxKind::opt_by,
        808 => SyntaxKind::NumericOnly_list,
        809 => SyntaxKind::opt_or_replace,
        810 => SyntaxKind::opt_trusted,
        811 => SyntaxKind::opt_procedural,
        812 => SyntaxKind::handler_name,
        813 => SyntaxKind::opt_inline_handler,
        814 => SyntaxKind::opt_validator,
        815 => SyntaxKind::attrs,
        816 => SyntaxKind::validator_clause,
        817 => SyntaxKind::OptTableSpaceOwner,
        818 => SyntaxKind::create_extension_opt_list,
        819 => SyntaxKind::create_extension_opt_item,
        820 => SyntaxKind::alter_extension_opt_list,
        821 => SyntaxKind::alter_extension_opt_item,
        822 => SyntaxKind::object_type_name,
        823 => SyntaxKind::object_type_any_name,
        824 => SyntaxKind::aggregate_with_argtypes,
        825 => SyntaxKind::function_with_argtypes,
        826 => SyntaxKind::operator_with_argtypes,
        827 => SyntaxKind::opt_fdw_options,
        828 => SyntaxKind::fdw_option,
        829 => SyntaxKind::fdw_options,
        830 => SyntaxKind::generic_option_list,
        831 => SyntaxKind::generic_option_elem,
        _ => spec_kind_from_832(c),
    }
}

/// The kind with the number `c`, for the numbers from 704 on: the kind at
/// that position of the declaration, and `Root` beyond the last.
pub open spec fn spec_kind_from_704(c: u32) -> SyntaxKind {
    match c {
        704 => SyntaxKind::opt_drop_behavior,
        705 => SyntaxKind::opt_set_data,
        706 => SyntaxKind::opt_collate_clause,
        707 => SyntaxKind::alter_using,
        708 => SyntaxKind::alter_generic_options,
        709 => SyntaxKind::TableConstraint,
        710 => SyntaxKind::ConstraintAttributeSpec,
        711 => SyntaxKind::replica_identity,
        712 => SyntaxKind::a_expr,
        713 => SyntaxKind::reloption_list,
        714 => SyntaxKind::reloption_elem,
        715 => SyntaxKind::ColLabel,
        716 => SyntaxKind::def_arg,
        717 => SyntaxKind::alter_identity_column_option,
        718 => SyntaxKind::SeqOptElem,
        719 => SyntaxKind::hash_partbound,
        720 => SyntaxKind::expr_list,
        721 => SyntaxKind::hash_partbound_elem,
        722 => SyntaxKind::alter_type_cmds,
        723 => SyntaxKind::alter_type_cmd,
        724 => SyntaxKind::TableFuncElement,
        725 => SyntaxKind::cursor_name,
        726 => SyntaxKind::opt_binary,
        727 => SyntaxKind::opt_column_list,
        728 => SyntaxKind::copy_from,
        729 => SyntaxKind::opt_program,
        730 => SyntaxKind::copy_file_name,
        731 => SyntaxKind::copy_delimiter,
        732 => SyntaxKind::copy_options,
        733 => SyntaxKind::where_clause,
        734 => SyntaxKind::PreparableStmt,
        735 => SyntaxKind::copy_opt_list,
        736 => SyntaxKind::copy_generic_opt_list,
        737 => SyntaxKind::copy_opt_item,
        738 => SyntaxKind::opt_as,
        739 => SyntaxKind::columnList,
        740 => SyntaxKind::opt_using,
        741 => SyntaxKind::copy_generic_opt_elem,
        742 => SyntaxKind::copy_generic_opt_arg,
        743 => SyntaxKind::copy_generic_opt_arg_list,
        744 => SyntaxKind::copy_generic_opt_arg_list_item,
        745 => SyntaxKind::OptTemp,
        746 => SyntaxKind::OptTableElementList,
        747 => SyntaxKind::OptInherit,
        748 => SyntaxKind::OptPartitionSpec,
        749 => SyntaxKind::table_access_method_clause,
        750 => SyntaxKind::OptWith,
        751 => SyntaxKind::OnCommitOption,
        752 => SyntaxKind::OptTableSpace,
        753 => SyntaxKind::OptTypedTableElementList,
        754 => SyntaxKind::TableElementList,
        755 => SyntaxKind::TypedTableElementList,
        756 => SyntaxKind::TableElement,
        757 => SyntaxKind::TypedTableElement,
        758 => SyntaxKind::TableLikeClause,
        759 => SyntaxKind::columnOptions,
        760 => SyntaxKind::opt_column_storage,
        761 => SyntaxKind::opt_column_compression,
        762 => SyntaxKind::create_generic_options,
        763 => SyntaxKind::ColQualList,
        764 => SyntaxKind::ColConstraint,
        765 => SyntaxKind::ColConstraintElem,
        766 => SyntaxKind::ConstraintAttr,
        767 => SyntaxKind::opt_unique_null_treatment,
        _ => spec_kind_from_768(c),
    }
}

/// The kind with the number `c`, for the numbers from 640 on: the kind at
/// that position of the declaration, and `Root` beyond the last.
pub open spec fn spec_kind_from_640(c: u32) -> SyntaxKind {
    match c {
        640 => SyntaxKind::VariableResetStmt,
        641 => SyntaxKind::VariableSetStmt,
        642 => SyntaxKind::VariableShowStmt,
        643 => SyntaxKind::ViewStmt,
        644 => SyntaxKind::ColId,
        645 => SyntaxKind::any_name,
        646 => SyntaxKind::func_application,
        647 => SyntaxKind::RoleId,
        648 => SyntaxKind::opt_with,
        649 => SyntaxKind::OptRoleList,
        650 => SyntaxKind::CreateOptRoleElem,
        651 => SyntaxKind::AlterOptRoleList,
        652 => SyntaxKind::AlterOptRoleElem,
        653 => SyntaxKind::Sconst,
        654 => SyntaxKind::SignedIconst,
        655 => SyntaxKind::role_list,
        656 => SyntaxKind::Iconst,
        657 => SyntaxKind::RoleSpec,
        658 => SyntaxKind::name,
        659 => SyntaxKind::opt_in_database,
        660 => SyntaxKind::SetResetClause,
        661 => SyntaxKind::add_drop,
        662 => SyntaxKind::opt_single_name,
        663 => SyntaxKind::OptSchemaEltList,
        664 => SyntaxKind::schema_stmt,
        665 => SyntaxKind::set_rest,
        666 => SyntaxKind::transaction_mode_list,
        667 => SyntaxKind::set_rest_more,
        668 => SyntaxKind::var_name,
        669 => SyntaxKind::var_list,
        670 => SyntaxKind::generic_set,
        671 => SyntaxKind::zone_value,
        672 => SyntaxKind::opt_encoding,
        673 => SyntaxKind::NonReservedWord_or_Sconst,
        674 => SyntaxKind::document_or_content,
        675 => SyntaxKind::var_value,
        676 => SyntaxKind::opt_boolean_or_string,
        677 => SyntaxKind::NumericOnly,
        678 => SyntaxKind::ConstInterval,
        679 => SyntaxKind::opt_interval,
        680 => SyntaxKind::NonReservedWord,
        681 => SyntaxKind::reset_rest,
        682 => SyntaxKind::generic_reset,
        683 => SyntaxKind::constraints_set_list,
        684 => SyntaxKind::constraints_set_mode,
        685 => SyntaxKind::qualified_name_list,
        686 => SyntaxKind::relation_expr,
        687 => SyntaxKind::alter_table_cmds,
        688 => SyntaxKind::partition_cmd,
        689 => SyntaxKind::opt_nowait,
        690 => SyntaxKind::qualified_name,
        691 => SyntaxKind::index_partition_cmd,
        692 => SyntaxKind::alter_table_cmd,
        693 => SyntaxKind::PartitionBoundSpec,
        694 => SyntaxKind::opt_concurrently,
        695 => SyntaxKind::columnDef,
        696 => SyntaxKind::opt_column,
        697 => SyntaxKind::alter_column_default,
        698 => SyntaxKind::reloptions,
        699 => SyntaxKind::column_storage,
        700 => SyntaxKind::column_compression,
        701 => SyntaxKind::generated_when,
        702 => SyntaxKind::OptParenthesizedSeqOptList,
        703 => SyntaxKind::alter_identity_column_option_list,
        _ => spec_kind_from_704(c),
    }
}

/// The kind with the number `c`, for the numbers from 576 on: the kind at
/// that position of the declaration, and `Root` beyond the last.
pub open spec fn spec_kind_from_576(c: u32) -> SyntaxKind {
    match c {
        576 => SyntaxKind::AlterOpFamilyStmt,
        577 => SyntaxKind::CreatePolicyStmt,
        578 => SyntaxKind::CreatePLangStmt,
        579 => SyntaxKind::CreateSchemaStmt,
        580 => SyntaxKind::CreateSeqStmt,
        581 => SyntaxKind::CreateStmt,
        582 => SyntaxKind::CreateSubscriptionStmt,
        583 => SyntaxKind::CreateStatsStmt,
        584 => SyntaxKind::CreateTableSpaceStmt,
        585 => SyntaxKind::CreateTransformStmt,
        586 => SyntaxKind::CreateTrigStmt,
        587 => SyntaxKind::CreateEventTrigStmt,
        588 => SyntaxKind::CreateRoleStmt,
        589 => SyntaxKind::CreateUserStmt,
        590 => SyntaxKind::CreateUserMappingStmt,
        591 => SyntaxKind::CreatedbStmt,
        592 => SyntaxKind::DeallocateStmt,
        593 => SyntaxKind::DeclareCursorStmt,
        594 => SyntaxKind::DefineStmt,
        595 => SyntaxKind::DeleteStmt,
        596 => SyntaxKind::DiscardStmt,
        597 => SyntaxKind::DoStmt,
        598 => SyntaxKind::DropCastStmt,
        599 => SyntaxKind::DropOpClassStmt,
        600 => SyntaxKind::DropOpFamilyStmt,
        601 => SyntaxKind::DropOwnedStmt,
        602 => SyntaxKind::DropStmt,
        603 => SyntaxKind::DropSubscriptionStmt,
        604 => SyntaxKind::DropTableSpaceStmt,
        605 => SyntaxKind::DropTransformStmt,
        606 => SyntaxKind::DropRoleStmt,
        607 => SyntaxKind::DropUserMappingStmt,
        608 => SyntaxKind::DropdbStmt,
        609 => SyntaxKind::ExecuteStmt,
        610 => SyntaxKind::ExplainStmt,
        611 => SyntaxKind::FetchStmt,
        612 => SyntaxKind::GrantStmt,
        613 => SyntaxKind::GrantRoleStmt,
        614 => SyntaxKind::ImportForeignSchemaStmt,
        615 => SyntaxKind::IndexStmt,
        616 => SyntaxKind::InsertStmt,
        617 => SyntaxKind::ListenStmt,
        618 => SyntaxKind::RefreshMatViewStmt,
        619 => SyntaxKind::LoadStmt,
        620 => SyntaxKind::LockStmt,
        621 => SyntaxKind::MergeStmt,
        622 => SyntaxKind::NotifyStmt,
        623 => SyntaxKind::PrepareStmt,
        624 => SyntaxKind::ReassignOwnedStmt,
        625 => SyntaxKind::ReindexStmt,
        626 => SyntaxKind::RemoveAggrStmt,
        627 => SyntaxKind::RemoveFuncStmt,
        628 => SyntaxKind::RemoveOperStmt,
        629 => SyntaxKind::RenameStmt,
        630 => SyntaxKind::RevokeStmt,
        631 => SyntaxKind::RevokeRoleStmt,
        632 => SyntaxKind::RuleStmt,
        633 => SyntaxKind::SecLabelStmt,
        634 => SyntaxKind::SelectStmt,
        635 => SyntaxKind::TransactionStmt,
        636 => SyntaxKind::TruncateStmt,
        637 => SyntaxKind::UnlistenStmt,
        638 => SyntaxKind::UpdateStmt,
        639 => SyntaxKind::VacuumStmt,
        _ => spec_kind_from_640(c),
    }
}

/// The kind with the number `c`, for the numbers from 512 on: the kind at
/// that position of the declaration, and `Root` beyond the last.
pub open spec fn spec_kind_from_512(c: u32) -> SyntaxKind {
    match c {
        512 => SyntaxKind::Dollarend,
        513 => SyntaxKind::stmtmulti,
        514 => SyntaxKind::Typename,
        515 => SyntaxKind::PLpgSQL_Expr,
        516 => SyntaxKind::PLAssignStmt,
        517 => SyntaxKind::toplevel_stmt,
        518 => SyntaxKind::stmt,
        519 => SyntaxKind::TransactionStmtLegacy,
        520 => SyntaxKind::AlterEventTrigStmt,
        521 => SyntaxKind::AlterCollationStmt,
        522 => SyntaxKind::AlterDatabaseStmt,
        523 => SyntaxKind::AlterDatabaseSetStmt,
        524 => SyntaxKind::AlterDefaultPrivilegesStmt,
        525 => SyntaxKind::AlterDomainStmt,
        526 => SyntaxKind::AlterEnumStmt,
        527 => SyntaxKind::AlterExtensionStmt,
        528 => SyntaxKind::AlterExtensionContentsStmt,
        529 => SyntaxKind::AlterFdwStmt,
        530 => SyntaxKind::AlterForeignServerStmt,
        531 => SyntaxKind::AlterFunctionStmt,
        532 => SyntaxKind::AlterGroupStmt,
        533 => SyntaxKind::AlterObjectDependsStmt,
        534 => SyntaxKind::AlterObjectSchemaStmt,
        535 => SyntaxKind::AlterOwnerStmt,
        536 => SyntaxKind::AlterOperatorStmt,
        537 => SyntaxKind::AlterTypeStmt,
        538 => SyntaxKind::AlterPolicyStmt,
        539 => SyntaxKind::AlterSeqStmt,
        540 => SyntaxKind::AlterSystemStmt,
        541 => SyntaxKind::AlterTableStmt,
        542 => SyntaxKind::AlterTblSpcStmt,
        543 => SyntaxKind::AlterCompositeTypeStmt,
        544 => SyntaxKind::AlterPublicationStmt,
        545 => SyntaxKind::AlterRoleSetStmt,
        546 => SyntaxKind::AlterRoleStmt,
        547 => SyntaxKind::AlterSubscriptionStmt,
        548 => SyntaxKind::AlterStatsStmt,
        549 => SyntaxKind::AlterTSConfigurationStmt,
        550 => SyntaxKind::AlterTSDictionaryStmt,
        551 => SyntaxKind::AlterUserMappingStmt,
        552 => SyntaxKind::AnalyzeStmt,
        553 => SyntaxKind::CallStmt,
        554 => SyntaxKind::CheckPointStmt,
        555 => SyntaxKind::ClosePortalStmt,
        556 => SyntaxKind::ClusterStmt,
        557 => SyntaxKind::CommentStmt,
        558 => SyntaxKind::ConstraintsSetStmt,
        559 => SyntaxKind::CopyStmt,
        560 => SyntaxKind::CreateAmStmt,
        561 => SyntaxKind::CreateAsStmt,
        562 => SyntaxKind::CreateAssertionStmt,
        563 => SyntaxKind::CreateCastStmt,
        564 => SyntaxKind::CreateConversionStmt,
        565 => SyntaxKind::CreateDomainStmt,
        566 => SyntaxKind::CreateExtensionStmt,
        567 => SyntaxKind::CreateFdwStmt,
        568 => SyntaxKind::CreateForeignServerStmt,
        569 => SyntaxKind::CreateForeignTableStmt,
        570 => SyntaxKind::CreateFunctionStmt,
        571 => SyntaxKind::CreateGroupStmt,
        572 => SyntaxKind::CreateMatViewStmt,
        573 => SyntaxKind::CreateOpClassStmt,
        574 => SyntaxKind::CreateOpFamilyStmt,
        575 => SyntaxKind::CreatePublicationStmt,
        _ => spec_kind_from_576(c),
    }
}

/// The kind with the number `c`, for the numbers from 448 on: the kind at
/// that position of the declaration, and `Root` beyond the last.
pub open spec fn spec_kind_from_448(c: u32) -> SyntaxKind {
    match c {
        448 => SyntaxKind::SUBSTRING,
        449 => SyntaxKind::TREAT,
        450 => SyntaxKind::TRIM,
        451 => SyntaxKind::BOTH,
        452 => SyntaxKind::LEADING,
        453 => SyntaxKind::TRAILING,
        454 => SyntaxKind::NULLIF,
        455 => SyntaxKind::COALESCE,
        456 => SyntaxKind::GREATEST,
        457 => SyntaxKind::LEAST,
        458 => SyntaxKind::XMLCONCAT,
        459 => SyntaxKind::XMLELEMENT,
        460 => SyntaxKind::XMLEXISTS,
        461 => SyntaxKind::XMLFOREST,
        462 => SyntaxKind::XMLPARSE,
        463 => SyntaxKind::XMLPI,
        464 => SyntaxKind::XMLROOT,
        465 => SyntaxKind::XMLSERIALIZE,
        466 => SyntaxKind::JSON_OBJECT,
        467 => SyntaxKind::JSON_ARRAY,
        468 => SyntaxKind::STANDALONE_P,
        469 => SyntaxKind::YES_P,
        470 => SyntaxKind::XMLATTRIBUTES,
        471 => SyntaxKind::CONTENT_P,
        472 => SyntaxKind::INDENT,
        473 => SyntaxKind::WHITESPACE_P,
        474 => SyntaxKind::STRIP_P,
        475 => SyntaxKind::PASSING,
        476 => SyntaxKind::REF_P,
        477 => SyntaxKind::WITHIN,
        478 => SyntaxKind::FILTER,
        479 => SyntaxKind::OVER,
        480 => SyntaxKind::GROUPS,
        481 => SyntaxKind::UNBOUNDED,
        482 => SyntaxKind::PRECEDING,
        483 => SyntaxKind::FOLLOWING,
        484 => SyntaxKind::OTHERS,
        485 => SyntaxKind::ANY,
        486 => SyntaxKind::SOME,
        487 => SyntaxKind::Op,
        488 => SyntaxKind::COLON_EQUALS,
        489 => SyntaxKind::EQUALS_GREATER,
        490 => SyntaxKind::NFC,
        491 => SyntaxKind::NFD,
        492 => SyntaxKind::NFKC,
        493 => SyntaxKind::NFKD,
        494 => SyntaxKind::PLACING,
        495 => SyntaxKind::CASE,
        496 => SyntaxKind::ELSE,
        497 => SyntaxKind::Colon,
        498 => SyntaxKind::ASYMMETRIC,
        499 => SyntaxKind::JSON,
        500 => SyntaxKind::SCALAR,
        501 => SyntaxKind::KEYS,
        502 => SyntaxKind::ABSENT,
        503 => SyntaxKind::JSON_OBJECTAGG,
        504 => SyntaxKind::JSON_ARRAYAGG,
        505 => SyntaxKind::BCONST,
        506 => SyntaxKind::XCONST,
        507 => SyntaxKind::ICONST,
        508 => SyntaxKind::FORMAT,
        509 => SyntaxKind::OFF,
        510 => SyntaxKind::UESCAPE,
        511 => SyntaxKind::VIEWS,
        _ => spec_kind_from_512(c),
    }
}

/// The kind with the number `c`, for the numbers from 384 on: the kind at
/// that position of the declaration, and `Root` beyond the last.
pub open spec fn spec_kind_from_384(c: u32) -> SyntaxKind {
    match c {
        384 => SyntaxKind::LBracket,
        385 => SyntaxKind::RBracket,
        386 => SyntaxKind::INT_P,
        387 => SyntaxKind::INTEGER,
        388 => SyntaxKind::SMALLINT,
        389 => SyntaxKind::BIGINT,
        390 => SyntaxKind::REAL,
        391 => SyntaxKind::FLOAT_P,
        392 => SyntaxKind::DOUBLE_P,
        393 => SyntaxKind::PRECISION,
        394 => SyntaxKind::DECIMAL_P,
        395 => SyntaxKind::DEC,
        396 => SyntaxKind::NUMERIC,
        397 => SyntaxKind::BOOLEAN_P,
        398 => SyntaxKind::BIT,
        399 => SyntaxKind::CHARACTER,
        400 => SyntaxKind::CHAR_P,
        401 => SyntaxKind::VARCHAR,
        402 => SyntaxKind::NATIONAL,
        403 => SyntaxKind::NCHAR,
        404 => SyntaxKind::VARYING,
        405 => SyntaxKind::TIMESTAMP,
        406 => SyntaxKind::INTERVAL,
        407 => SyntaxKind::WITHOUT_LA,
        408 => SyntaxKind::YEAR_P,
        409 => SyntaxKind::MONTH_P,
        410 => SyntaxKind::DAY_P,
        411 => SyntaxKind::HOUR_P,
        412 => SyntaxKind::MINUTE_P,
        413 => SyntaxKind::SECOND_P,
        414 => SyntaxKind::TYPECAST,
        415 => SyntaxKind::AT,
        416 => SyntaxKind::Slash,
        417 => SyntaxKind::Caret,
        418 => SyntaxKind::Less,
        419 => SyntaxKind::Greater,
        420 => SyntaxKind::LESS_EQUALS,
        421 => SyntaxKind::GREATER_EQUALS,
        422 => SyntaxKind::NOT_EQUALS,
        423 => SyntaxKind::NOT_LA,
        424 => SyntaxKind::ILIKE,
        425 => SyntaxKind::SIMILAR,
        426 => SyntaxKind::ISNULL,
        427 => SyntaxKind::NOTNULL,
        428 => SyntaxKind::OVERLAPS,
        429 => SyntaxKind::UNKNOWN,
        430 => SyntaxKind::BETWEEN,
        431 => SyntaxKind::SYMMETRIC,
        432 => SyntaxKind::DOCUMENT_P,
        433 => SyntaxKind::NORMALIZED,
        434 => SyntaxKind::CURRENT_DATE,
        435 => SyntaxKind::CURRENT_TIME,
        436 => SyntaxKind::CURRENT_TIMESTAMP,
        437 => SyntaxKind::LOCALTIME,
        438 => SyntaxKind::LOCALTIMESTAMP,
        439 => SyntaxKind::CURRENT_ROLE,
        440 => SyntaxKind::CURRENT_USER,
        441 => SyntaxKind::SESSION_USER,
        442 => SyntaxKind::SYSTEM_USER,
        443 => SyntaxKind::CURRENT_CATALOG,
        444 => SyntaxKind::EXTRACT,
        445 => SyntaxKind::NORMALIZE,
        446 => SyntaxKind::OVERLAY,
        447 => SyntaxKind::POSITION,
        _ => spec_kind_from_448(c),
    }
}

/// The kind with the number `c`, for the numbers from 320 on: the kind at
/// that position of the declaration, and `Root` beyond the last.
pub open spec fn spec_kind_from_320(c: u32) -> SyntaxKind {
    match c {
        320 => SyntaxKind::UNLISTEN,
        321 => SyntaxKind::ABORT_P,
        322 => SyntaxKind::ROLLBACK,
        323 => SyntaxKind::SAVEPOINT,
        324 => SyntaxKind::RELEASE,
        325 => SyntaxKind::PREPARE,
        326 => SyntaxKind::PREPARED,
        327 => SyntaxKind::WORK,
        328 => SyntaxKind::ONLY,
        329 => SyntaxKind::WRITE,
        330 => SyntaxKind::CHAIN,
        331 => SyntaxKind::RECURSIVE,
        332 => SyntaxKind::CASCADED,
        333 => SyntaxKind::LOAD,
        334 => SyntaxKind::VACUUM,
        335 => SyntaxKind::ANALYZE,
        336 => SyntaxKind::ANALYSE,
        337 => SyntaxKind::FORMAT_LA,
        338 => SyntaxKind::VERBOSE,
        339 => SyntaxKind::EXPLAIN,
        340 => SyntaxKind::DEALLOCATE,
        341 => SyntaxKind::OVERRIDING,
        342 => SyntaxKind::CONFLICT,
        343 => SyntaxKind::RETURNING,
        344 => SyntaxKind::LOCK_P,
        345 => SyntaxKind::MODE,
        346 => SyntaxKind::SHARE,
        347 => SyntaxKind::EXCLUSIVE,
        348 => SyntaxKind::NOWAIT,
        349 => SyntaxKind::LOCKED,
        350 => SyntaxKind::MERGE,
        351 => SyntaxKind::MATCHED,
        352 => SyntaxKind::THEN,
        353 => SyntaxKind::DECLARE,
        354 => SyntaxKind::CURSOR,
        355 => SyntaxKind::SCROLL,
        356 => SyntaxKind::ASENSITIVE,
        357 => SyntaxKind::INSENSITIVE,
        358 => SyntaxKind::HOLD,
        359 => SyntaxKind::UNION,
        360 => SyntaxKind::INTERSECT,
        361 => SyntaxKind::DEPTH,
        362 => SyntaxKind::BREADTH,
        363 => SyntaxKind::TIES,
        364 => SyntaxKind::OFFSET,
        365 => SyntaxKind::ROLLUP,
        366 => SyntaxKind::CUBE,
        367 => SyntaxKind::GROUPING,
        368 => SyntaxKind::SETS,
        369 => SyntaxKind::HAVING,
        370 => SyntaxKind::LATERAL_P,
        371 => SyntaxKind::CROSS,
        372 => SyntaxKind::JOIN,
        373 => SyntaxKind::NATURAL,
        374 => SyntaxKind::LEFT,
        375 => SyntaxKind::RIGHT,
        376 => SyntaxKind::INNER_P,
        377 => SyntaxKind::OUTER_P,
        378 => SyntaxKind::TABLESAMPLE,
        379 => SyntaxKind::ORDINALITY,
        380 => SyntaxKind::XMLTABLE,
        381 => SyntaxKind::COLUMNS,
        382 => SyntaxKind::XMLNAMESPACES,
        383 => SyntaxKind::ARRAY,
        _ => spec_kind_from_384(c),
    }
}

/// The kind with the number `c`, for the numbers from 256 on: the kind at
/// that position of the declaration, and `Root` beyond the last.
pub open spec fn spec_kind_from_256(c: u32) -> SyntaxKind {
    match c {
        256 => SyntaxKind::LARGE_P,
        257 => SyntaxKind::OBJECT_P,
        258 => SyntaxKind::LABEL,
        259 => SyntaxKind::FETCH,
        260 => SyntaxKind::MOVE,
        261 => SyntaxKind::NEXT,
        262 => SyntaxKind::PRIOR,
        263 => SyntaxKind::FIRST_P,
        264 => SyntaxKind::LAST_P,
        265 => SyntaxKind::ABSOLUTE_P,
        266 => SyntaxKind::RELATIVE_P,
        267 => SyntaxKind::FORWARD,
        268 => SyntaxKind::BACKWARD,
        269 => SyntaxKind::GRANT,
        270 => SyntaxKind::REVOKE,
        271 => SyntaxKind::PRIVILEGES,
        272 => SyntaxKind::SYSTEM_P,
        273 => SyntaxKind::PARAMETER,
        274 => SyntaxKind::TABLES,
        275 => SyntaxKind::FUNCTIONS,
        276 => SyntaxKind::PROCEDURES,
        277 => SyntaxKind::ROUTINES,
        278 => SyntaxKind::GRANTED,
        279 => SyntaxKind::TYPES_P,
        280 => SyntaxKind::SCHEMAS,
        281 => SyntaxKind::ASC,
        282 => SyntaxKind::DESC,
        283 => SyntaxKind::NULLS_LA,
        284 => SyntaxKind::RETURNS,
        285 => SyntaxKind::REPLACE,
        286 => SyntaxKind::OUT_P,
        287 => SyntaxKind::INOUT,
        288 => SyntaxKind::VARIADIC,
        289 => SyntaxKind::Percent,
        290 => SyntaxKind::SETOF,
        291 => SyntaxKind::CALLED,
        292 => SyntaxKind::INPUT_P,
        293 => SyntaxKind::STRICT_P,
        294 => SyntaxKind::IMMUTABLE,
        295 => SyntaxKind::STABLE,
        296 => SyntaxKind::VOLATILE,
        297 => SyntaxKind::EXTERNAL,
        298 => SyntaxKind::DEFINER,
        299 => SyntaxKind::INVOKER,
        300 => SyntaxKind::LEAKPROOF,
        301 => SyntaxKind::COST,
        302 => SyntaxKind::SUPPORT,
        303 => SyntaxKind::PARALLEL,
        304 => SyntaxKind::WINDOW,
        305 => SyntaxKind::RETURN,
        306 => SyntaxKind::BEGIN_P,
        307 => SyntaxKind::ATOMIC,
        308 => SyntaxKind::END_P,
        309 => SyntaxKind::DO,
        310 => SyntaxKind::IMPLICIT_P,
        311 => SyntaxKind::ASSIGNMENT,
        312 => SyntaxKind::SQL_P,
        313 => SyntaxKind::REINDEX,
        314 => SyntaxKind::DEPENDS,
        315 => SyntaxKind::CURRENT_SCHEMA,
        316 => SyntaxKind::SKIP,
        317 => SyntaxKind::ALSO,
        318 => SyntaxKind::NOTIFY,
        319 => SyntaxKind::LISTEN,
        _ => spec_kind_from_320(c),
    }
}

/// The kind with the number `c`, for the numbers from 192 on: the kind at
/// that position of the declaration, and `Root` beyond the last.
pub open spec fn spec_kind_from_192(c: u32) -> SyntaxKind {
    match c {
        192 => SyntaxKind::LANGUAGE,
        193 => SyntaxKind::HANDLER,
        194 => SyntaxKind::TRUSTED,
        195 => SyntaxKind::INLINE_P,
        196 => SyntaxKind::VALIDATOR,
        197 => SyntaxKind::PROCEDURAL,
        198 => SyntaxKind::LOCATION,
        199 => SyntaxKind::EXTENSION,
        200 => SyntaxKind::VERSION_P,
        201 => SyntaxKind::AGGREGATE,
        202 => SyntaxKind::CAST,
        203 => SyntaxKind::DOMAIN_P,
        204 => SyntaxKind::FUNCTION,
        205 => SyntaxKind::CLASS,
        206 => SyntaxKind::FAMILY,
        207 => SyntaxKind::PROCEDURE,
        208 => SyntaxKind::ROUTINE,
        209 => SyntaxKind::TRANSFORM,
        210 => SyntaxKind::WRAPPER,
        211 => SyntaxKind::SERVER,
        212 => SyntaxKind::IMPORT_P,
        213 => SyntaxKind::INTO,
        214 => SyntaxKind::EXCEPT,
        215 => SyntaxKind::MAPPING,
        216 => SyntaxKind::POLICY,
        217 => SyntaxKind::SELECT,
        218 => SyntaxKind::INSERT,
        219 => SyntaxKind::EXECUTE,
        220 => SyntaxKind::AFTER,
        221 => SyntaxKind::EACH,
        222 => SyntaxKind::BEFORE,
        223 => SyntaxKind::INSTEAD,
        224 => SyntaxKind::OR,
        225 => SyntaxKind::TRUNCATE,
        226 => SyntaxKind::REFERENCING,
        227 => SyntaxKind::NEW,
        228 => SyntaxKind::OLD,
        229 => SyntaxKind::STATEMENT,
        230 => SyntaxKind::WHEN,
        231 => SyntaxKind::EVENT,
        232 => SyntaxKind::AND,
        233 => SyntaxKind::SCONST,
        234 => SyntaxKind::ASSERTION,
        235 => SyntaxKind::ENUM_P,
        236 => SyntaxKind::RANGE,
        237 => SyntaxKind::TEXT_P,
        238 => SyntaxKind::SEARCH,
        239 => SyntaxKind::PARSER,
        240 => SyntaxKind::DICTIONARY,
        241 => SyntaxKind::TEMPLATE,
        242 => SyntaxKind::CONFIGURATION,
        243 => SyntaxKind::COLLATION,
        244 => SyntaxKind::NONE,
        245 => SyntaxKind::VALUE_P,
        246 => SyntaxKind::RENAME,
        247 => SyntaxKind::ORDER,
        248 => SyntaxKind::RECHECK,
        249 => SyntaxKind::REASSIGN,
        250 => SyntaxKind::CONVERSION_P,
        251 => SyntaxKind::SUBSCRIPTION,
        252 => SyntaxKind::PUBLICATION,
        253 => SyntaxKind::CONTINUE_P,
        254 => SyntaxKind::COMMENT,
        255 => SyntaxKind::IS,
        _ => spec_kind_from_256(c),
    }
}

/// The kind with the number `c`, for the numbers from 128 on: the kind at
/// that position of the declaration, and `Root` beyond the last.
pub open spec fn spec_kind_from_128(c: u32) -> SyntaxKind {
    match c {
        128 => SyntaxKind::FOR,
        129 => SyntaxKind::VALUES,
        130 => SyntaxKind::ATTRIBUTE,
        131 => SyntaxKind::CLOSE,
        132 => SyntaxKind::COPY,
        133 => SyntaxKind::PROGRAM,
        134 => SyntaxKind::STDIN,
        135 => SyntaxKind::STDOUT,
        136 => SyntaxKind::BINARY,
        137 => SyntaxKind::FREEZE,
        138 => SyntaxKind::DELIMITER,
        139 => SyntaxKind::CSV,
        140 => SyntaxKind::HEADER_P,
        141 => SyntaxKind::QUOTE,
        142 => SyntaxKind::ESCAPE,
        143 => SyntaxKind::Star,
        144 => SyntaxKind::ENCODING,
        145 => SyntaxKind::DELIMITERS,
        146 => SyntaxKind::GLOBAL,
        147 => SyntaxKind::OPTIONS,
        148 => SyntaxKind::COMPRESSION,
        149 => SyntaxKind::STORAGE,
        150 => SyntaxKind::UNIQUE,
        151 => SyntaxKind::PRIMARY,
        152 => SyntaxKind::KEY,
        153 => SyntaxKind::CHECK,
        154 => SyntaxKind::STORED,
        155 => SyntaxKind::REFERENCES,
        156 => SyntaxKind::NULLS_P,
        157 => SyntaxKind::DISTINCT,
        158 => SyntaxKind::DEFERRABLE,
        159 => SyntaxKind::INITIALLY,
        160 => SyntaxKind::LIKE,
        161 => SyntaxKind::INCLUDING,
        162 => SyntaxKind::EXCLUDING,
        163 => SyntaxKind::COMMENTS,
        164 => SyntaxKind::DEFAULTS,
        165 => SyntaxKind::INDEXES,
        166 => SyntaxKind::EXCLUDE,
        167 => SyntaxKind::INCLUDE,
        168 => SyntaxKind::MATCH,
        169 => SyntaxKind::PARTIAL,
        170 => SyntaxKind::SIMPLE,
        171 => SyntaxKind::OPERATOR,
        172 => SyntaxKind::WHERE,
        173 => SyntaxKind::UPDATE,
        174 => SyntaxKind::DELETE_P,
        175 => SyntaxKind::ACTION,
        176 => SyntaxKind::INHERITS,
        177 => SyntaxKind::COMMIT,
        178 => SyntaxKind::ROWS,
        179 => SyntaxKind::PRESERVE,
        180 => SyntaxKind::DATA_P,
        181 => SyntaxKind::REFRESH,
        182 => SyntaxKind::CACHE,
        183 => SyntaxKind::CYCLE,
        184 => SyntaxKind::INCREMENT,
        185 => SyntaxKind::MAXVALUE,
        186 => SyntaxKind::MINVALUE,
        187 => SyntaxKind::NAME_P,
        188 => SyntaxKind::START,
        189 => SyntaxKind::FCONST,
        190 => SyntaxKind::Plus,
        191 => SyntaxKind::Minus,
        _ => spec_kind_from_192(c),
    }
}

/// The kind with the number `c`, for the numbers from 64 on: the kind at
/// that position of the declaration, and `Root` beyond the last.
pub open spec fn spec_kind_from_64(c: u32) -> SyntaxKind {
    match c {
        64 => SyntaxKind::SERIALIZABLE,
        65 => SyntaxKind::TRUE_P,
        66 => SyntaxKind::FALSE_P,
        67 => SyntaxKind::ON,
        68 => SyntaxKind::LParen,
        69 => SyntaxKind::RParen,
        70 => SyntaxKind::RESET,
        71 => SyntaxKind::ISOLATION,
        72 => SyntaxKind::LEVEL,
        73 => SyntaxKind::SHOW,
        74 => SyntaxKind::CONSTRAINTS,
        75 => SyntaxKind::DEFERRED,
        76 => SyntaxKind::IMMEDIATE,
        77 => SyntaxKind::CHECKPOINT,
        78 => SyntaxKind::DISCARD,
        79 => SyntaxKind::TEMP,
        80 => SyntaxKind::TEMPORARY,
        81 => SyntaxKind::PLANS,
        82 => SyntaxKind::SEQUENCES,
        83 => SyntaxKind::TABLE,
        84 => SyntaxKind::TABLESPACE,
        85 => SyntaxKind::OWNED,
        86 => SyntaxKind::BY,
        87 => SyntaxKind::INDEX,
        88 => SyntaxKind::SEQUENCE,
        89 => SyntaxKind::VIEW,
        90 => SyntaxKind::MATERIALIZED,
        91 => SyntaxKind::FOREIGN,
        92 => SyntaxKind::ATTACH,
        93 => SyntaxKind::PARTITION,
        94 => SyntaxKind::DETACH,
        95 => SyntaxKind::FINALIZE,
        96 => SyntaxKind::COLUMN,
        97 => SyntaxKind::EXPRESSION,
        98 => SyntaxKind::STATISTICS,
        99 => SyntaxKind::GENERATED,
        100 => SyntaxKind::IDENTITY_P,
        101 => SyntaxKind::TYPE_P,
        102 => SyntaxKind::CONSTRAINT,
        103 => SyntaxKind::VALIDATE,
        104 => SyntaxKind::WITHOUT,
        105 => SyntaxKind::OIDS,
        106 => SyntaxKind::CLUSTER,
        107 => SyntaxKind::LOGGED,
        108 => SyntaxKind::UNLOGGED,
        109 => SyntaxKind::ENABLE_P,
        110 => SyntaxKind::TRIGGER,
        111 => SyntaxKind::ALWAYS,
        112 => SyntaxKind::REPLICA,
        113 => SyntaxKind::DISABLE_P,
        114 => SyntaxKind::RULE,
        115 => SyntaxKind::NO,
        116 => SyntaxKind::OF,
        117 => SyntaxKind::OWNER,
        118 => SyntaxKind::ACCESS,
        119 => SyntaxKind::METHOD,
        120 => SyntaxKind::ROW,
        121 => SyntaxKind::SECURITY,
        122 => SyntaxKind::FORCE,
        123 => SyntaxKind::COLLATE,
        124 => SyntaxKind::USING,
        125 => SyntaxKind::NOTHING,
        126 => SyntaxKind::FULL,
        127 => SyntaxKind::RESTART,
        _ => spec_kind_from_128(c),
    }
}

/// The kind with the number `c`, for the numbers from 0 on: the kind at
/// that position of the declaration, and `Root` beyond the last.
pub open spec fn spec_kind_from_0(c: u32) -> SyntaxKind {
    match c {
        0 => SyntaxKind::MODE_TYPE_NAME,
        1 => SyntaxKind::MODE_PLPGSQL_EXPR,
        2 => SyntaxKind::MODE_PLPGSQL_ASSIGN1,
        3 => SyntaxKind::MODE_PLPGSQL_ASSIGN2,
        4 => SyntaxKind::MODE_PLPGSQL_ASSIGN3,
        5 => SyntaxKind::Semicolon,
        6 => SyntaxKind::CONCURRENTLY,
        7 => SyntaxKind::CASCADE,
        8 => SyntaxKind::RESTRICT,
        9 => SyntaxKind::CALL,
        10 => SyntaxKind::CREATE,
        11 => SyntaxKind::ROLE,
        12 => SyntaxKind::WITH,
        13 => SyntaxKind::WITH_LA,
        14 => SyntaxKind::PASSWORD,
        15 => SyntaxKind::PARAM,
        16 => SyntaxKind::NULL_P,
        17 => SyntaxKind::ENCRYPTED,
        18 => SyntaxKind::UNENCRYPTED,
        19 => SyntaxKind::INHERIT,
        20 => SyntaxKind::CONNECTION,
        21 => SyntaxKind::LIMIT,
        22 => SyntaxKind::VALID,
        23 => SyntaxKind::UNTIL,
        24 => SyntaxKind::USER,
        25 => SyntaxKind::IDENT,
        26 => SyntaxKind::SYSID,
        27 => SyntaxKind::ADMIN,
        28 => SyntaxKind::IN_P,
        29 => SyntaxKind::GROUP_P,
        30 => SyntaxKind::ALTER,
        31 => SyntaxKind::DATABASE,
        32 => SyntaxKind::ALL,
        33 => SyntaxKind::DROP,
        34 => SyntaxKind::IF_P,
        35 => SyntaxKind::EXISTS,
        36 => SyntaxKind::ADD_P,
        37 => SyntaxKind::SCHEMA,
        38 => SyntaxKind::AUTHORIZATION,
        39 => SyntaxKind::NOT,
        40 => SyntaxKind::SET,
        41 => SyntaxKind::LOCAL,
        42 => SyntaxKind::SESSION,
        43 => SyntaxKind::TRANSACTION,
        44 => SyntaxKind::CHARACTERISTICS,
        45 => SyntaxKind::AS,
        46 => SyntaxKind::TO,
        47 => SyntaxKind::Equals,
        48 => SyntaxKind::DEFAULT,
        49 => SyntaxKind::FROM,
        50 => SyntaxKind::CURRENT_P,
        51 => SyntaxKind::TIME,
        52 => SyntaxKind::ZONE,
        53 => SyntaxKind::CATALOG_P,
        54 => SyntaxKind::NAMES,
        55 => SyntaxKind::XML_P,
        56 => SyntaxKind::OPTION,
        57 => SyntaxKind::SNAPSHOT,
        58 => SyntaxKind::Dot,
        59 => SyntaxKind::Comma,
        60 => SyntaxKind::READ,
        61 => SyntaxKind::UNCOMMITTED,
        62 => SyntaxKind::COMMITTED,
        63 => SyntaxKind::REPEATABLE,
        _ => spec_kind_from_64(c),
    }
}

/// Whether a kind is one of those from `MODE_TYPE_NAME` to `REPEATABLE`.
pub open spec fn in_kinds_from_0(kind: SyntaxKind) -> bool {
    match kind {
        SyntaxKind::MODE_TYPE_NAME
        | SyntaxKind::MODE_PLPGSQL_EXPR
        | SyntaxKind::MODE_PLPGSQL_ASSIGN1
        | SyntaxKind::MODE_PLPGSQL_ASSIGN2
        | SyntaxKind::MODE_PLPGSQL_ASSIGN3
        | SyntaxKind::Semicolon
        | SyntaxKind::CONCURRENTLY
        | SyntaxKind::CASCADE
        | SyntaxKind::RESTRICT
        | SyntaxKind::CALL
        | SyntaxKind::CREATE
        | SyntaxKind::ROLE
        | SyntaxKind::WITH
        | SyntaxKind::WITH_LA
        | SyntaxKind::PASSWORD
        | SyntaxKind::PARAM
        | SyntaxKind::NULL_P
        | SyntaxKind::ENCRYPTED
        | SyntaxKind::UNENCRYPTED
        | SyntaxKind::INHERIT
        | SyntaxKind::CONNECTION
        | SyntaxKind::LIMIT
        | SyntaxKind::VALID
        | SyntaxKind::UNTIL
        | SyntaxKind::USER
        | SyntaxKind::IDENT
        | SyntaxKind::SYSID
        | SyntaxKind::ADMIN
        | SyntaxKind::IN_P
        | SyntaxKind::GROUP_P
        | SyntaxKind::ALTER
        | SyntaxKind::DATABASE
        | SyntaxKind::ALL
        | SyntaxKind::DROP
        | SyntaxKind::IF_P
        | SyntaxKind::EXISTS
        | SyntaxKind::ADD_P
        | SyntaxKind::SCHEMA
        | SyntaxKind::AUTHORIZATION
        | SyntaxKind::NOT
        | SyntaxKind::SET
        | SyntaxKind::LOCAL
        | SyntaxKind::SESSION
        | SyntaxKind::TRANSACTION
        | SyntaxKind::CHARACTERISTICS
        | SyntaxKind::AS
        | SyntaxKind::TO
        | SyntaxKind::Equals
        | SyntaxKind::DEFAULT
        | SyntaxKind::FROM
        | SyntaxKind::CURRENT_P
        | SyntaxKind::TIME
        | SyntaxKind::ZONE
        | SyntaxKind::CATALOG_P
        | SyntaxKind::NAMES
        | SyntaxKind::XML_P
        | SyntaxKind::OPTION
        | SyntaxKind::SNAPSHOT
        | SyntaxKind::Dot
        | SyntaxKind::Comma
        | SyntaxKind::READ
        | SyntaxKind::UNCOMMITTED
        | SyntaxKind::COMMITTED
        | SyntaxKind::REPEATABLE => true,
        _ => false,
    }
}

/// Whether a kind is one of those from `SERIALIZABLE` to `RESTART`.
pub open spec fn in_kinds_from_64(kind: SyntaxKind) -> bool {
    match kind {
        SyntaxKind::SERIALIZABLE
        | SyntaxKind::TRUE_P
        | SyntaxKind::FALSE_P
        | SyntaxKind::ON
        | SyntaxKind::LParen
        | SyntaxKind::RParen
        | SyntaxKind::RESET
        | SyntaxKind::ISOLATION
        | SyntaxKind::LEVEL
        | SyntaxKind::SHOW
        | SyntaxKind::CONSTRAINTS
        | SyntaxKind::DEFERRED
        | SyntaxKind::IMMEDIATE
        | SyntaxKind::CHECKPOINT
        | SyntaxKind::DISCARD
        | SyntaxKind::TEMP
        | SyntaxKind::TEMPORARY
        | SyntaxKind::PLANS
        | SyntaxKind::SEQUENCES
        | SyntaxKind::TABLE
        | SyntaxKind::TABLESPACE
        | SyntaxKind::OWNED
        | SyntaxKind::BY
        | SyntaxKind::INDEX
        | SyntaxKind::SEQUENCE
        | SyntaxKind::VIEW
        | SyntaxKind::MATERIALIZED
        | SyntaxKind::FOREIGN
        | SyntaxKind::ATTACH
        | SyntaxKind::PARTITION
        | SyntaxKind::DETACH
        | SyntaxKind::FINALIZE
        | SyntaxKind::COLUMN
        | SyntaxKind::EXPRESSION
        | SyntaxKind::STATISTICS
        | SyntaxKind::GENERATED
        | SyntaxKind::IDENTITY_P
        | SyntaxKind::TYPE_P
        | SyntaxKind::CONSTRAINT
        | SyntaxKind::VALIDATE
        | SyntaxKind::WITHOUT
        | SyntaxKind::OIDS
        | SyntaxKind::CLUSTER
        | SyntaxKind::LOGGED
        | SyntaxKind::UNLOGGED
        | SyntaxKind::ENABLE_P
        | SyntaxKind::TRIGGER
        | SyntaxKind::ALWAYS
        | SyntaxKind::REPLICA
        | SyntaxKind::DISABLE_P
        | SyntaxKind::RULE
        | SyntaxKind::NO
        | SyntaxKind::OF
        | SyntaxKind::OWNER
        | SyntaxKind::ACCESS
        | SyntaxKind::METHOD
        | SyntaxKind::ROW
        | SyntaxKind::SECURITY
        | SyntaxKind::FORCE
        | SyntaxKind::COLLATE
        | SyntaxKind::USING
        | SyntaxKind::NOTHING
        | SyntaxKind::FULL
        | SyntaxKind::RESTART => true,
        _ => false,
    }
}

/// Whether a kind is one of those from `FOR` to `Minus`.
pub open spec fn in_kinds_from_128(kind: SyntaxKind) -> bool {
    match kind {
        SyntaxKind::FOR
        | SyntaxKind::VALUES
        | SyntaxKind::ATTRIBUTE
        | SyntaxKind::CLOSE
        | SyntaxKind::COPY
        | SyntaxKind::PROGRAM
        | SyntaxKind::STDIN
        | SyntaxKind::STDOUT
        | SyntaxKind::BINARY
        | SyntaxKind::FREEZE
        | SyntaxKind::DELIMITER
        | SyntaxKind::CSV
        | SyntaxKind::HEADER_P
        | SyntaxKind::QUOTE
        | SyntaxKind::ESCAPE
        | SyntaxKind::Star
        | SyntaxKind::ENCODING
        | SyntaxKind::DELIMITERS
        | SyntaxKind::GLOBAL
        | SyntaxKind::OPTIONS
        | SyntaxKind::COMPRESSION
        | SyntaxKind::STORAGE
        | SyntaxKind::UNIQUE
        | SyntaxKind::PRIMARY
        | SyntaxKind::KEY
        | SyntaxKind::CHECK
        | SyntaxKind::STORED
        | SyntaxKind::REFERENCES
        | SyntaxKind::NULLS_P
        | SyntaxKind::DISTINCT
        | SyntaxKind::DEFERRABLE
        | SyntaxKind::INITIALLY
        | SyntaxKind::LIKE
        | SyntaxKind::INCLUDING
        | SyntaxKind::EXCLUDING
        | SyntaxKind::COMMENTS
        | SyntaxKind::DEFAULTS
        | SyntaxKind::INDEXES
        | SyntaxKind::EXCLUDE
        | SyntaxKind::INCLUDE
        | SyntaxKind::MATCH
        | SyntaxKind::PARTIAL
        | SyntaxKind::SIMPLE
        | SyntaxKind::OPERATOR
        | SyntaxKind::WHERE
        | SyntaxKind::UPDATE
        | SyntaxKind::DELETE_P
        | SyntaxKind::ACTION
        | SyntaxKind::INHERITS
        | SyntaxKind::COMMIT
        | SyntaxKind::ROWS
        | SyntaxKind::PRESERVE
        | SyntaxKind::DATA_P
        | SyntaxKind::REFRESH
        | SyntaxKind::CACHE
        | SyntaxKind::CYCLE
        | SyntaxKind::INCREMENT
        | SyntaxKind::MAXVALUE
        | SyntaxKind::MINVALUE
        | SyntaxKind::NAME_P
        | SyntaxKind::START
        | SyntaxKind::FCONST
        | SyntaxKind::Plus
        | SyntaxKind::Minus => true,
        _ => false,
    }
}

/// Whether a kind is one of those from `LANGUAGE` to `IS`.
pub open spec fn in_kinds_from_192(kind: SyntaxKind) -> bool {
    match kind {
        SyntaxKind::LANGUAGE
        | SyntaxKind::HANDLER
        | SyntaxKind::TRUSTED
        | SyntaxKind::INLINE_P
        | SyntaxKind::VALIDATOR
        | SyntaxKind::PROCEDURAL
        | SyntaxKind::LOCATION
        | SyntaxKind::EXTENSION
        | SyntaxKind::VERSION_P
        | SyntaxKind::AGGREGATE
        | SyntaxKind::CAST
        | SyntaxKind::DOMAIN_P
        | SyntaxKind::FUNCTION
        | SyntaxKind::CLASS
        | SyntaxKind::FAMILY
        | SyntaxKind::PROCEDURE
        | SyntaxKind::ROUTINE
        | SyntaxKind::TRANSFORM
        | SyntaxKind::WRAPPER
        | SyntaxKind::SERVER
        | SyntaxKind::IMPORT_P
        | SyntaxKind::INTO
        | SyntaxKind::EXCEPT
        | SyntaxKind::MAPPING
        | SyntaxKind::POLICY
        | SyntaxKind::SELECT
        | SyntaxKind::INSERT
        | SyntaxKind::EXECUTE
        | SyntaxKind::AFTER
        | SyntaxKind::EACH
        | SyntaxKind::BEFORE
        | SyntaxKind::INSTEAD
        | SyntaxKind::OR
        | SyntaxKind::TRUNCATE
        | SyntaxKind::REFERENCING
        | SyntaxKind::NEW
        | SyntaxKind::OLD
        | SyntaxKind::STATEMENT
        | SyntaxKind::WHEN
        | SyntaxKind::EVENT
        | SyntaxKind::AND
        | SyntaxKind::SCONST
        | SyntaxKind::ASSERTION
        | SyntaxKind::ENUM_P
        | SyntaxKind::RANGE
        | SyntaxKind::TEXT_P
        | SyntaxKind::SEARCH
        | SyntaxKind::PARSER
        | SyntaxKind::DICTIONARY
        | SyntaxKind::TEMPLATE
        | SyntaxKind::CONFIGURATION
        | SyntaxKind::COLLATION
        | SyntaxKind::NONE
        | SyntaxKind::VALUE_P
        | SyntaxKind::RENAME
        | SyntaxKind::ORDER
        | SyntaxKind::RECHECK
        | SyntaxKind::REASSIGN
        | SyntaxKind::CONVERSION_P
        | SyntaxKind::SUBSCRIPTION
        | SyntaxKind::PUBLICATION
        | SyntaxKind::CONTINUE_P
        | SyntaxKind::COMMENT
        | SyntaxKind::IS => true,
        _ => false,
    }
}

/// Whether a kind is one of those from `LARGE_P` to `LISTEN`.
pub open spec fn in_kinds_from_256(kind: SyntaxKind) -> bool {
    match kind {
        SyntaxKind::LARGE_P
        | SyntaxKind::OBJECT_P
        | SyntaxKind::LABEL
        | SyntaxKind::FETCH
        | SyntaxKind::MOVE
        | SyntaxKind::NEXT
        | SyntaxKind::PRIOR
        | SyntaxKind::FIRST_P
        | SyntaxKind::LAST_P
        | SyntaxKind::ABSOLUTE_P
        | SyntaxKind::RELATIVE_P
        | SyntaxKind::FORWARD
        | SyntaxKind::BACKWARD
        | SyntaxKind::GRANT
        | SyntaxKind::REVOKE
        | SyntaxKind::PRIVILEGES
        | SyntaxKind::SYSTEM_P
        | SyntaxKind::PARAMETER
        | SyntaxKind::TABLES
        | SyntaxKind::FUNCTIONS
        | SyntaxKind::PROCEDURES
        | SyntaxKind::ROUTINES
        | SyntaxKind::GRANTED
        | SyntaxKind::TYPES_P
        | SyntaxKind::SCHEMAS
        | SyntaxKind::ASC
        | SyntaxKind::DESC
        | SyntaxKind::NULLS_LA
        | SyntaxKind::RETURNS
        | SyntaxKind::REPLACE
        | SyntaxKind::OUT_P
        | SyntaxKind::INOUT
        | SyntaxKind::VARIADIC
        | SyntaxKind::Percent
        | SyntaxKind::SETOF
        | SyntaxKind::CALLED
        | SyntaxKind::INPUT_P
        | SyntaxKind::STRICT_P
        | SyntaxKind::IMMUTABLE
        | SyntaxKind::STABLE
        | SyntaxKind::VOLATILE
        | SyntaxKind::EXTERNAL
        | SyntaxKind::DEFINER
        | SyntaxKind::INVOKER
        | SyntaxKind::LEAKPROOF
        | SyntaxKind::COST
        | SyntaxKind::SUPPORT
        | SyntaxKind::PARALLEL
        | SyntaxKind::WINDOW
        | SyntaxKind::RETURN
        | SyntaxKind::BEGIN_P
        | SyntaxKind::ATOMIC
        | SyntaxKind::END_P
        | SyntaxKind::DO
        | SyntaxKind::IMPLICIT_P
        | SyntaxKind::ASSIGNMENT
        | SyntaxKind::SQL_P
        | SyntaxKind::REINDEX
        | SyntaxKind::DEPENDS
        | SyntaxKind::CURRENT_SCHEMA
        | SyntaxKind::SKIP
        | SyntaxKind::ALSO
        | SyntaxKind::NOTIFY
        | SyntaxKind::LISTEN => true,
        _ => false,
    }
}

/// Whether a kind is one of those from `UNLISTEN` to `ARRAY`.
pub open spec fn in_kinds_from_320(kind: SyntaxKind) -> bool {
    match kind {
        SyntaxKind::UNLISTEN
        | SyntaxKind::ABORT_P
        | SyntaxKind::ROLLBACK
        | SyntaxKind::SAVEPOINT
        | SyntaxKind::RELEASE
        | SyntaxKind::PREPARE
        | SyntaxKind::PREPARED
        | SyntaxKind::WORK
        | SyntaxKind::ONLY
        | SyntaxKind::WRITE
        | SyntaxKind::CHAIN
        | SyntaxKind::RECURSIVE
        | SyntaxKind::CASCADED
        | SyntaxKind::LOAD
        | SyntaxKind::VACUUM
        | SyntaxKind::ANALYZE
        | SyntaxKind::ANALYSE
        | SyntaxKind::FORMAT_LA
        | SyntaxKind::VERBOSE
        | SyntaxKind::EXPLAIN
        | SyntaxKind::DEALLOCATE
        | SyntaxKind::OVERRIDING
        | SyntaxKind::CONFLICT
        | SyntaxKind::RETURNING
        | SyntaxKind::LOCK_P
        | SyntaxKind::MODE
        | SyntaxKind::SHARE
        | SyntaxKind::EXCLUSIVE
        | SyntaxKind::NOWAIT
        | SyntaxKind::LOCKED
        | SyntaxKind::MERGE
        | SyntaxKind::MATCHED
        | SyntaxKind::THEN
        | SyntaxKind::DECLARE
        | SyntaxKind::CURSOR
        | SyntaxKind::SCROLL
        | SyntaxKind::ASENSITIVE
        | SyntaxKind::INSENSITIVE
        | SyntaxKind::HOLD
        | SyntaxKind::UNION
        | SyntaxKind::INTERSECT
        | SyntaxKind::DEPTH
        | SyntaxKind::BREADTH
        | SyntaxKind::TIES
        | SyntaxKind::OFFSET
        | SyntaxKind::ROLLUP
        | SyntaxKind::CUBE
        | SyntaxKind::GROUPING
        | SyntaxKind::SETS
        | SyntaxKind::HAVING
        | SyntaxKind::LATERAL_P
        | SyntaxKind::CROSS
        | SyntaxKind::JOIN
        | SyntaxKind::NATURAL
        | SyntaxKind::LEFT
        | SyntaxKind::RIGHT
        | SyntaxKind::INNER_P
        | SyntaxKind::OUTER_P
        | SyntaxKind::TABLESAMPLE
        | SyntaxKind::ORDINALITY
        | SyntaxKind::XMLTABLE
        | SyntaxKind::COLUMNS
        | SyntaxKind::XMLNAMESPACES
        | SyntaxKind::ARRAY => true,
        _ => false,
    }
}

/// Whether a kind is one of those from `LBracket` to `POSITION`.
pub open spec fn in_kinds_from_384(kind: SyntaxKind) -> bool {
    match kind {
        SyntaxKind::LBracket
        | SyntaxKind::RBracket
        | SyntaxKind::INT_P
        | SyntaxKind::INTEGER
        | SyntaxKind::SMALLINT
        | SyntaxKind::BIGINT
        | SyntaxKind::REAL
        | SyntaxKind::FLOAT_P
        | SyntaxKind::DOUBLE_P
        | SyntaxKind::PRECISION
        | SyntaxKind::DECIMAL_P
        | SyntaxKind::DEC
        | SyntaxKind::NUMERIC
        | SyntaxKind::BOOLEAN_P
        | SyntaxKind::BIT
        | SyntaxKind::CHARACTER
        | SyntaxKind::CHAR_P
        | SyntaxKind::VARCHAR
        | SyntaxKind::NATIONAL
        | SyntaxKind::NCHAR
        | SyntaxKind::VARYING
        | SyntaxKind::TIMESTAMP
        | SyntaxKind::INTERVAL
        | SyntaxKind::WITHOUT_LA
        | SyntaxKind::YEAR_P
        | SyntaxKind::MONTH_P
        | SyntaxKind::DAY_P
        | SyntaxKind::HOUR_P
        | SyntaxKind::MINUTE_P
        | SyntaxKind::SECOND_P
        | SyntaxKind::TYPECAST
        | SyntaxKind::AT
        | SyntaxKind::Slash
        | SyntaxKind::Caret
        | SyntaxKind::Less
        | SyntaxKind::Greater
        | SyntaxKind::LESS_EQUALS
        | SyntaxKind::GREATER_EQUALS
        | SyntaxKind::NOT_EQUALS
        | SyntaxKind::NOT_LA
        | SyntaxKind::ILIKE
        | SyntaxKind::SIMILAR
        | SyntaxKind::ISNULL
        | SyntaxKind::NOTNULL
        | SyntaxKind::OVERLAPS
        | SyntaxKind::UNKNOWN
        | SyntaxKind::BETWEEN
        | SyntaxKind::SYMMETRIC
        | SyntaxKind::DOCUMENT_P
        | SyntaxKind::NORMALIZED
        | SyntaxKind::CURRENT_DATE
        | SyntaxKind::CURRENT_TIME
        | SyntaxKind::CURRENT_TIMESTAMP
        | SyntaxKind::LOCALTIME
        | SyntaxKind::LOCALTIMESTAMP
        | SyntaxKind::CURRENT_ROLE
        | SyntaxKind::CURRENT_USER
        | SyntaxKind::SESSION_USER
        | SyntaxKind::SYSTEM_USER
        | SyntaxKind::CURRENT_CATALOG
        | SyntaxKind::EXTRACT
        | SyntaxKind::NORMALIZE
        | SyntaxKind::OVERLAY
        | SyntaxKind::POSITION => true,
        _ => false,
    }
}

/// Whether a kind is one of those from `SUBSTRING` to `VIEWS`.
pub open spec fn in_kinds_from_448(kind: SyntaxKind) -> bool {
    match kind {
        SyntaxKind::SUBSTRING
        | SyntaxKind::TREAT
        | SyntaxKind::TRIM
        | SyntaxKind::BOTH
        | SyntaxKind::LEADING
        | SyntaxKind::TRAILING
        | SyntaxKind::NULLIF
        | SyntaxKind::COALESCE
        | SyntaxKind::GREATEST
        | SyntaxKind::LEAST
        | SyntaxKind::XMLCONCAT
        | SyntaxKind::XMLELEMENT
        | SyntaxKind::XMLEXISTS
        | SyntaxKind::XMLFOREST
        | SyntaxKind::XMLPARSE
        | SyntaxKind::XMLPI
        | SyntaxKind::XMLROOT
        | SyntaxKind::XMLSERIALIZE
        | SyntaxKind::JSON_OBJECT
        | SyntaxKind::JSON_ARRAY
        | SyntaxKind::STANDALONE_P
        | SyntaxKind::YES_P
        | SyntaxKind::XMLATTRIBUTES
        | SyntaxKind::CONTENT_P
        | SyntaxKind::INDENT
        | SyntaxKind::WHITESPACE_P
        | SyntaxKind::STRIP_P
        | SyntaxKind::PASSING
        | SyntaxKind::REF_P
        | SyntaxKind::WITHIN
        | SyntaxKind::FILTER
        | SyntaxKind::OVER
        | SyntaxKind::GROUPS
        | SyntaxKind::UNBOUNDED
        | SyntaxKind::PRECEDING
        | SyntaxKind::FOLLOWING
        | SyntaxKind::OTHERS
        | SyntaxKind::ANY
        | SyntaxKind::SOME
        | SyntaxKind::Op
        | SyntaxKind::COLON_EQUALS
        | SyntaxKind::EQUALS_GREATER
        | SyntaxKind::NFC
        | SyntaxKind::NFD
        | SyntaxKind::NFKC
        | SyntaxKind::NFKD
        | SyntaxKind::PLACING
        | SyntaxKind::CASE
        | SyntaxKind::ELSE
        | SyntaxKind::Colon
        | SyntaxKind::ASYMMETRIC
        | SyntaxKind::JSON
        | SyntaxKind::SCALAR
        | SyntaxKind::KEYS
        | SyntaxKind::ABSENT
        | SyntaxKind::JSON_OBJECTAGG
        | SyntaxKind::JSON_ARRAYAGG
        | SyntaxKind::BCONST
        | SyntaxKind::XCONST
        | SyntaxKind::ICONST
        | SyntaxKind::FORMAT
        | SyntaxKind::OFF
        | SyntaxKind::UESCAPE
        | SyntaxKind::VIEWS => true,
        _ => false,
    }
}

/// Whether a kind is one of those from `Dollarend` to `CreatePublicationStmt`.
pub open spec fn in_kinds_from_512(kind: SyntaxKind) -> bool {
    match kind {
        SyntaxKind::Dollarend
        | SyntaxKind::stmtmulti
        | SyntaxKind::Typename
        | SyntaxKind::PLpgSQL_Expr
        | SyntaxKind::PLAssignStmt
        | SyntaxKind::toplevel_stmt
        | SyntaxKind::stmt
        | SyntaxKind::TransactionStmtLegacy
        | SyntaxKind::AlterEventTrigStmt
        | SyntaxKind::AlterCollationStmt
        | SyntaxKind::AlterDatabaseStmt
        | SyntaxKind::AlterDatabaseSetStmt
        | SyntaxKind::AlterDefaultPrivilegesStmt
        | SyntaxKind::AlterDomainStmt
        | SyntaxKind::AlterEnumStmt
        | SyntaxKind::AlterExtensionStmt
        | SyntaxKind::AlterExtensionContentsStmt
        | SyntaxKind::AlterFdwStmt
        | SyntaxKind::AlterForeignServerStmt
        | SyntaxKind::AlterFunctionStmt
        | SyntaxKind::AlterGroupStmt
        | SyntaxKind::AlterObjectDependsStmt
        | SyntaxKind::AlterObjectSchemaStmt
        | SyntaxKind::AlterOwnerStmt
        | SyntaxKind::AlterOperatorStmt
        | SyntaxKind::AlterTypeStmt
        | SyntaxKind::AlterPolicyStmt
        | SyntaxKind::AlterSeqStmt
        | SyntaxKind::AlterSystemStmt
        | SyntaxKind::AlterTableStmt
        | SyntaxKind::AlterTblSpcStmt
        | SyntaxKind::AlterCompositeTypeStmt
        | SyntaxKind::AlterPublicationStmt
        | SyntaxKind::AlterRoleSetStmt
        | SyntaxKind::AlterRoleStmt
        | SyntaxKind::AlterSubscriptionStmt
        | SyntaxKind::AlterStatsStmt
        | SyntaxKind::AlterTSConfigurationStmt
        | SyntaxKind::AlterTSDictionaryStmt
        | SyntaxKind::AlterUserMappingStmt
        | SyntaxKind::AnalyzeStmt
        | SyntaxKind::CallStmt
        | SyntaxKind::CheckPointStmt
        | SyntaxKind::ClosePortalStmt
        | SyntaxKind::ClusterStmt
        | SyntaxKind::CommentStmt
        | SyntaxKind::ConstraintsSetStmt
        | SyntaxKind::CopyStmt
        | SyntaxKind::CreateAmStmt
        | SyntaxKind::CreateAsStmt
        | SyntaxKind::CreateAssertionStmt
        | SyntaxKind::CreateCastStmt
        | SyntaxKind::CreateConversionStmt
        | SyntaxKind::CreateDomainStmt
        | SyntaxKind::CreateExtensionStmt
        | SyntaxKind::CreateFdwStmt
        | SyntaxKind::CreateForeignServerStmt
        | SyntaxKind::CreateForeignTableStmt
        | SyntaxKind::CreateFunctionStmt
        | SyntaxKind::CreateGroupStmt
        | SyntaxKind::CreateMatViewStmt
        | SyntaxKind::CreateOpClassStmt
        | SyntaxKind::CreateOpFamilyStmt
        | SyntaxKind::CreatePublicationStmt => true,
        _ => false,
    }
}

/// Whether a kind is one of those from `AlterOpFamilyStmt` to `VacuumStmt`.
pub open spec fn in_kinds_from_576(kind: SyntaxKind) -> bool {
    match kind {
        SyntaxKind::AlterOpFamilyStmt
        | SyntaxKind::CreatePolicyStmt
        | SyntaxKind::CreatePLangStmt
        | SyntaxKind::CreateSchemaStmt
        | SyntaxKind::CreateSeqStmt
        | SyntaxKind::CreateStmt
        | SyntaxKind::CreateSubscriptionStmt
        | SyntaxKind::CreateStatsStmt
        | SyntaxKind::CreateTableSpaceStmt
        | SyntaxKind::CreateTransformStmt
        | SyntaxKind::CreateTrigStmt
        | SyntaxKind::CreateEventTrigStmt
        | SyntaxKind::CreateRoleStmt
        | SyntaxKind::CreateUserStmt
        | SyntaxKind::CreateUserMappingStmt
        | SyntaxKind::CreatedbStmt
        | SyntaxKind::DeallocateStmt
        | SyntaxKind::DeclareCursorStmt
        | SyntaxKind::DefineStmt
        | SyntaxKind::DeleteStmt
        | SyntaxKind::DiscardStmt
        | SyntaxKind::DoStmt
        | SyntaxKind::DropCastStmt
        | SyntaxKind::DropOpClassStmt
        | SyntaxKind::DropOpFamilyStmt
        | SyntaxKind::DropOwnedStmt
        | SyntaxKind::DropStmt
        | SyntaxKind::DropSubscriptionStmt
        | SyntaxKind::DropTableSpaceStmt
        | SyntaxKind::DropTransformStmt
        | SyntaxKind::DropRoleStmt
        | SyntaxKind::DropUserMappingStmt
        | SyntaxKind::DropdbStmt
        | SyntaxKind::ExecuteStmt
        | SyntaxKind::ExplainStmt
        | SyntaxKind::FetchStmt
        | SyntaxKind::GrantStmt
        | SyntaxKind::GrantRoleStmt
        | SyntaxKind::ImportForeignSchemaStmt
        | SyntaxKind::IndexStmt
        | SyntaxKind::InsertStmt
        | SyntaxKind::ListenStmt
        | SyntaxKind::RefreshMatViewStmt
        | SyntaxKind::LoadStmt
        | SyntaxKind::LockStmt
        | SyntaxKind::MergeStmt
        | SyntaxKind::NotifyStmt
        | SyntaxKind::PrepareStmt
        | SyntaxKind::ReassignOwnedStmt
        | SyntaxKind::ReindexStmt
        | SyntaxKind::RemoveAggrStmt
        | SyntaxKind::RemoveFuncStmt
        | SyntaxKind::RemoveOperStmt
        | SyntaxKind::RenameStmt
        | SyntaxKind::RevokeStmt
        | SyntaxKind::RevokeRoleStmt
        | SyntaxKind::RuleStmt
        | SyntaxKind::SecLabelStmt
        | SyntaxKind::SelectStmt
        | SyntaxKind::TransactionStmt
        | SyntaxKind::TruncateStmt
        | SyntaxKind::UnlistenStmt
        | SyntaxKind::UpdateStmt
        | SyntaxKind::VacuumStmt => true,
        _ => false,
    }
}

/// Whether a kind is one of those from `VariableResetStmt` to `alter_identity_column_option_list`.
pub open spec fn in_kinds_from_640(kind: SyntaxKind) -> bool {
    match kind {
        SyntaxKind::VariableResetStmt
        | SyntaxKind::VariableSetStmt
        | SyntaxKind::VariableShowStmt
        | SyntaxKind::ViewStmt
        | SyntaxKind::ColId
        | SyntaxKind::any_name
        | SyntaxKind::func_application
        | SyntaxKind::RoleId
        | SyntaxKind::opt_with
        | SyntaxKind::OptRoleList
        | SyntaxKind::CreateOptRoleElem
        | SyntaxKind::AlterOptRoleList
        | SyntaxKind::AlterOptRoleElem
        | SyntaxKind::Sconst
        | SyntaxKind::SignedIconst
        | SyntaxKind::role_list
        | SyntaxKind::Iconst
        | SyntaxKind::RoleSpec
        | SyntaxKind::name
        | SyntaxKind::opt_in_database
        | SyntaxKind::SetResetClause
        | SyntaxKind::add_drop
        | SyntaxKind::opt_single_name
        | SyntaxKind::OptSchemaEltList
        | SyntaxKind::schema_stmt
        | SyntaxKind::set_rest
        | SyntaxKind::transaction_mode_list
        | SyntaxKind::set_rest_more
        | SyntaxKind::var_name
        | SyntaxKind::var_list
        | SyntaxKind::generic_set
        | SyntaxKind::zone_value
        | SyntaxKind::opt_encoding
        | SyntaxKind::NonReservedWord_or_Sconst
        | SyntaxKind::document_or_content
        | SyntaxKind::var_value
        | SyntaxKind::opt_boolean_or_string
        | SyntaxKind::NumericOnly
        | SyntaxKind::ConstInterval
        | SyntaxKind::opt_interval
        | SyntaxKind::NonReservedWord
        | SyntaxKind::reset_rest
        | SyntaxKind::generic_reset
        | SyntaxKind::constraints_set_list
        | SyntaxKind::constraints_set_mode
        | SyntaxKind::qualified_name_list
        | SyntaxKind::relation_expr
        | SyntaxKind::alter_table_cmds
        | SyntaxKind::partition_cmd
        | SyntaxKind::opt_nowait
        | SyntaxKind::qualified_name
        | SyntaxKind::index_partition_cmd
        | SyntaxKind::alter_table_cmd
        | SyntaxKind::PartitionBoundSpec
        | SyntaxKind::opt_concurrently
        | SyntaxKind::columnDef
        | SyntaxKind::opt_column
        | SyntaxKind::alter_column_default
        | SyntaxKind::reloptions
        | SyntaxKind::column_storage
        | SyntaxKind::column_compression
        | SyntaxKind::generated_when
        | SyntaxKind::OptParenthesizedSeqOptList
        | SyntaxKind::alter_identity_column_option_list => true,
        _ => false,
    }
}

/// Whether a kind is one of those from `opt_drop_behavior` to `opt_unique_null_treatment`.
pub open spec fn in_kinds_from_704(kind: SyntaxKind) -> bool {
    match kind {
        SyntaxKind::opt_drop_behavior
        | SyntaxKind::opt_set_data
        | SyntaxKind::opt_collate_clause
        | SyntaxKind::alter_using
        | SyntaxKind::alter_generic_options
        | SyntaxKind::TableConstraint
        | SyntaxKind::ConstraintAttributeSpec
        | SyntaxKind::replica_identity
        | SyntaxKind::a_expr
        | SyntaxKind::reloption_list
        | SyntaxKind::reloption_elem
        | SyntaxKind::ColLabel
        | SyntaxKind::def_arg
        | SyntaxKind::alter_identity_column_option
        | SyntaxKind::SeqOptElem
        | SyntaxKind::hash_partbound
        | SyntaxKind::expr_list
        | SyntaxKind::hash_partbound_elem
        | SyntaxKind::alter_type_cmds
        | SyntaxKind::alter_type_cmd
        | SyntaxKind::TableFuncElement
        | SyntaxKind::cursor_name
        | SyntaxKind::opt_binary
        | SyntaxKind::opt_column_list
        | SyntaxKind::copy_from
        | SyntaxKind::opt_program
        | SyntaxKind::copy_file_name
        | SyntaxKind::copy_delimiter
        | SyntaxKind::copy_options
        | SyntaxKind::where_clause
        | SyntaxKind::PreparableStmt
        | SyntaxKind::copy_opt_list
        | SyntaxKind::copy_generic_opt_list
        | SyntaxKind::copy_opt_item
        | SyntaxKind::opt_as
        | SyntaxKind::columnList
        | SyntaxKind::opt_using
        | SyntaxKind::copy_generic_opt_elem
        | SyntaxKind::copy_generic_opt_arg
        | SyntaxKind::copy_generic_opt_arg_list
        | SyntaxKind::copy_generic_opt_arg_list_item
        | SyntaxKind::OptTemp
        | SyntaxKind::OptTableElementList
        | SyntaxKind::OptInherit
        | SyntaxKind::OptPartitionSpec
        | SyntaxKind::table_access_method_clause
        | SyntaxKind::OptWith
        | SyntaxKind::OnCommitOption
        | SyntaxKind::OptTableSpace
        | SyntaxKind::OptTypedTableElementList
        | SyntaxKind::TableElementList
        | SyntaxKind::TypedTableElementList
        | SyntaxKind::TableElement
        | SyntaxKind::TypedTableElement
        | SyntaxKind::TableLikeClause
        | SyntaxKind::columnOptions
        | SyntaxKind::opt_column_storage
        | SyntaxKind::opt_column_compression
        | SyntaxKind::create_generic_options
        | SyntaxKind::ColQualList
        | SyntaxKind::ColConstraint
        | SyntaxKind::ColConstraintElem
        | SyntaxKind::ConstraintAttr
        | SyntaxKind::opt_unique_null_treatment => true,
        _ => false,
    }
}

/// Whether a kind is one of those from `opt_definition` to `generic_option_elem`.
pub open spec fn in_kinds_from_768(kind: SyntaxKind) -> bool {
    match kind {
        SyntaxKind::opt_definition
        | SyntaxKind::OptConsTableSpace
        | SyntaxKind::opt_no_inherit
        | SyntaxKind::b_expr
        | SyntaxKind::key_match
        | SyntaxKind::key_actions
        | SyntaxKind::TableLikeOptionList
        | SyntaxKind::TableLikeOption
        | SyntaxKind::ConstraintElem
        | SyntaxKind::opt_c_include
        | SyntaxKind::ExistingIndex
        | SyntaxKind::access_method_clause
        | SyntaxKind::ExclusionConstraintList
        | SyntaxKind::OptWhereClause
        | SyntaxKind::columnElem
        | SyntaxKind::ExclusionConstraintElem
        | SyntaxKind::index_elem
        | SyntaxKind::any_operator
        | SyntaxKind::key_update
        | SyntaxKind::key_delete
        | SyntaxKind::key_action
        | SyntaxKind::PartitionSpec
        | SyntaxKind::part_params
        | SyntaxKind::part_elem
        | SyntaxKind::opt_collate
        | SyntaxKind::opt_qualified_name
        | SyntaxKind::func_expr_windowless
        | SyntaxKind::opt_name_list
        | SyntaxKind::stats_params
        | SyntaxKind::from_list
        | SyntaxKind::stats_param
        | SyntaxKind::create_as_target
        | SyntaxKind::opt_with_data
        | SyntaxKind::OptNoLog
        | SyntaxKind::create_mv_target
        | SyntaxKind::opt_reloptions
        | SyntaxKind::OptSeqOptList
        | SyntaxKind::SeqOptList
        | SyntaxKind::SimpleTypename
        | SyntaxKind::opt_by
        | SyntaxKind::NumericOnly_list
        | SyntaxKind::opt_or_replace
        | SyntaxKind::opt_trusted
        | SyntaxKind::opt_procedural
        | SyntaxKind::handler_name
        | SyntaxKind::opt_inline_handler
        | SyntaxKind::opt_validator
        | SyntaxKind::attrs
        | SyntaxKind::validator_clause
        | SyntaxKind::OptTableSpaceOwner
        | SyntaxKind::create_extension_opt_list
        | SyntaxKind::create_extension_opt_item
        | SyntaxKind::alter_extension_opt_list
        | SyntaxKind::alter_extension_opt_item
        | SyntaxKind::object_type_name
        | SyntaxKind::object_type_any_name
        | SyntaxKind::aggregate_with_argtypes
        | SyntaxKind::function_with_argtypes
        | SyntaxKind::operator_with_argtypes
        | SyntaxKind::opt_fdw_options
        | SyntaxKind::fdw_option
        | SyntaxKind::fdw_options
        | SyntaxKind::generic_option_list
        | SyntaxKind::generic_option_elem => true,
        _ => false,
    }
}

/// Whether a kind is one of those from `alter_generic_option_list` to `opclass_drop_list`.
pub open spec fn in_kinds_from_832(kind: SyntaxKind) -> bool {
    match kind {
        SyntaxKind::alter_generic_option_list
        | SyntaxKind::alter_generic_option_elem
        | SyntaxKind::generic_option_name
        | SyntaxKind::generic_option_arg
        | SyntaxKind::opt_type
        | SyntaxKind::opt_foreign_server_version
        | SyntaxKind::foreign_server_version
        | SyntaxKind::import_qualification
        | SyntaxKind::import_qualification_type
        | SyntaxKind::relation_expr_list
        | SyntaxKind::auth_ident
        | SyntaxKind::RowSecurityDefaultPermissive
        | SyntaxKind::RowSecurityDefaultForCmd
        | SyntaxKind::RowSecurityDefaultToRole
        | SyntaxKind::RowSecurityOptionalExpr
        | SyntaxKind::RowSecurityOptionalWithCheck
        | SyntaxKind::RowSecurityOptionalToRole
        | SyntaxKind::row_security_cmd
        | SyntaxKind::am_type
        | SyntaxKind::TriggerActionTime
        | SyntaxKind::TriggerEvents
        | SyntaxKind::TriggerReferencing
        | SyntaxKind::TriggerForSpec
        | SyntaxKind::TriggerWhen
        | SyntaxKind::FUNCTION_or_PROCEDURE
        | SyntaxKind::func_name
        | SyntaxKind::TriggerFuncArgs
        | SyntaxKind::OptConstrFromTable
        | SyntaxKind::TriggerOneEvent
        | SyntaxKind::TriggerTransitions
        | SyntaxKind::TriggerTransition
        | SyntaxKind::TransitionOldOrNew
        | SyntaxKind::TransitionRowOrTable
        | SyntaxKind::TransitionRelName
        | SyntaxKind::TriggerForOptEach
        | SyntaxKind::TriggerForType
        | SyntaxKind::TriggerFuncArg
        | SyntaxKind::ConstraintAttributeElem
        | SyntaxKind::event_trigger_when_list
        | SyntaxKind::event_trigger_when_item
        | SyntaxKind::event_trigger_value_list
        | SyntaxKind::enable_trigger
        | SyntaxKind::aggr_args
        | SyntaxKind::definition
        | SyntaxKind::old_aggr_definition
        | SyntaxKind::OptTableFuncElementList
        | SyntaxKind::opt_enum_val_list
        | SyntaxKind::def_list
        | SyntaxKind::def_elem
        | SyntaxKind::func_type
        | SyntaxKind::reserved_keyword
        | SyntaxKind::qual_all_Op
        | SyntaxKind::old_aggr_list
        | SyntaxKind::old_aggr_elem
        | SyntaxKind::enum_val_list
        | SyntaxKind::opt_if_not_exists
        | SyntaxKind::opt_default
        | SyntaxKind::opt_opfamily
        | SyntaxKind::opclass_item_list
        | SyntaxKind::opclass_item
        | SyntaxKind::opclass_purpose
        | SyntaxKind::opt_recheck
        | SyntaxKind::type_list
        | SyntaxKind::opclass_drop_list => true,
        _ => false,
    }
}

/// Whether a kind is one of those from `opclass_drop` to `common_func_opt_item`.
pub open spec fn in_kinds_from_896(kind: SyntaxKind) -> bool {
    match kind {
        SyntaxKind::opclass_drop
        | SyntaxKind::any_name_list
        | SyntaxKind::drop_type_name
        | SyntaxKind::name_list
        | SyntaxKind::object_type_name_on_any_name
        | SyntaxKind::type_name_list
        | SyntaxKind::attr_name
        | SyntaxKind::opt_table
        | SyntaxKind::opt_restart_seqs
        | SyntaxKind::comment_text
        | SyntaxKind::opt_provider
        | SyntaxKind::security_label
        | SyntaxKind::fetch_args
        | SyntaxKind::from_in
        | SyntaxKind::opt_from_in
        | SyntaxKind::privileges
        | SyntaxKind::privilege_target
        | SyntaxKind::grantee_list
        | SyntaxKind::opt_grant_grant_option
        | SyntaxKind::opt_granted_by
        | SyntaxKind::privilege_list
        | SyntaxKind::privilege
        | SyntaxKind::parameter_name
        | SyntaxKind::parameter_name_list
        | SyntaxKind::function_with_argtypes_list
        | SyntaxKind::grantee
        | SyntaxKind::grant_role_opt_list
        | SyntaxKind::grant_role_opt
        | SyntaxKind::grant_role_opt_value
        | SyntaxKind::DefACLOptionList
        | SyntaxKind::DefACLAction
        | SyntaxKind::DefACLOption
        | SyntaxKind::defacl_privilege_target
        | SyntaxKind::opt_unique
        | SyntaxKind::index_params
        | SyntaxKind::opt_include
        | SyntaxKind::opt_asc_desc
        | SyntaxKind::opt_nulls_order
        | SyntaxKind::index_elem_options
        | SyntaxKind::index_including_params
        | SyntaxKind::func_args_with_defaults
        | SyntaxKind::func_return
        | SyntaxKind::opt_createfunc_opt_list
        | SyntaxKind::opt_routine_body
        | SyntaxKind::table_func_column_list
        | SyntaxKind::func_args_list
        | SyntaxKind::func_arg
        | SyntaxKind::func_args
        | SyntaxKind::type_func_name_keyword
        | SyntaxKind::indirection
        | SyntaxKind::func_args_with_defaults_list
        | SyntaxKind::func_arg_with_default
        | SyntaxKind::arg_class
        | SyntaxKind::param_name
        | SyntaxKind::type_function_name
        | SyntaxKind::aggr_args_list
        | SyntaxKind::aggr_arg
        | SyntaxKind::aggregate_with_argtypes_list
        | SyntaxKind::createfunc_opt_list
        | SyntaxKind::createfunc_opt_item
        | SyntaxKind::FunctionSetResetClause
        | SyntaxKind::func_as
        | SyntaxKind::transform_type_list
        | SyntaxKind::common_func_opt_item => true,
        _ => false,
    }
}

/// Whether a kind is one of those from `ReturnStmt` to `insert_target`.
pub open spec fn in_kinds_from_960(kind: SyntaxKind) -> bool {
    match kind {
        SyntaxKind::ReturnStmt
        | SyntaxKind::routine_body_stmt_list
        | SyntaxKind::routine_body_stmt
        | SyntaxKind::table_func_column
        | SyntaxKind::alterfunc_opt_list
        | SyntaxKind::opt_restrict
        | SyntaxKind::operator_with_argtypes_list
        | SyntaxKind::all_Op
        | SyntaxKind::oper_argtypes
        | SyntaxKind::dostmt_opt_list
        | SyntaxKind::dostmt_opt_item
        | SyntaxKind::cast_context
        | SyntaxKind::opt_if_exists
        | SyntaxKind::transform_element_list
        | SyntaxKind::opt_reindex_option_list
        | SyntaxKind::reindex_target_relation
        | SyntaxKind::reindex_target_all
        | SyntaxKind::utility_option_list
        | SyntaxKind::opt_no
        | SyntaxKind::operator_def_list
        | SyntaxKind::operator_def_elem
        | SyntaxKind::operator_def_arg
        | SyntaxKind::pub_obj_list
        | SyntaxKind::extended_relation_expr
        | SyntaxKind::PublicationObjSpec
        | SyntaxKind::event
        | SyntaxKind::opt_instead
        | SyntaxKind::RuleActionList
        | SyntaxKind::RuleActionStmt
        | SyntaxKind::RuleActionMulti
        | SyntaxKind::RuleActionStmtOrEmpty
        | SyntaxKind::notify_payload
        | SyntaxKind::opt_transaction
        | SyntaxKind::opt_transaction_chain
        | SyntaxKind::transaction_mode_list_or_empty
        | SyntaxKind::iso_level
        | SyntaxKind::transaction_mode_item
        | SyntaxKind::opt_check_option
        | SyntaxKind::file_name
        | SyntaxKind::createdb_opt_list
        | SyntaxKind::createdb_opt_items
        | SyntaxKind::createdb_opt_item
        | SyntaxKind::createdb_opt_name
        | SyntaxKind::opt_equal
        | SyntaxKind::drop_option_list
        | SyntaxKind::drop_option
        | SyntaxKind::any_with
        | SyntaxKind::opt_verbose
        | SyntaxKind::cluster_index_specification
        | SyntaxKind::opt_full
        | SyntaxKind::opt_freeze
        | SyntaxKind::opt_analyze
        | SyntaxKind::opt_vacuum_relation_list
        | SyntaxKind::analyze_keyword
        | SyntaxKind::utility_option_elem
        | SyntaxKind::utility_option_name
        | SyntaxKind::utility_option_arg
        | SyntaxKind::vacuum_relation
        | SyntaxKind::vacuum_relation_list
        | SyntaxKind::ExplainableStmt
        | SyntaxKind::prep_type_clause
        | SyntaxKind::execute_param_clause
        | SyntaxKind::opt_with_clause
        | SyntaxKind::insert_target => true,
        _ => false,
    }
}

/// Whether a kind is one of those from `insert_rest` to `select_fetch_first_value`.
pub open spec fn in_kinds_from_1024(kind: SyntaxKind) -> bool {
    match kind {
        SyntaxKind::insert_rest
        | SyntaxKind::opt_on_conflict
        | SyntaxKind::returning_clause
        | SyntaxKind::override_kind
        | SyntaxKind::insert_column_list
        | SyntaxKind::insert_column_item
        | SyntaxKind::opt_indirection
        | SyntaxKind::opt_conf_expr
        | SyntaxKind::set_clause_list
        | SyntaxKind::target_list
        | SyntaxKind::relation_expr_opt_alias
        | SyntaxKind::using_clause
        | SyntaxKind::where_or_current_clause
        | SyntaxKind::opt_lock
        | SyntaxKind::lock_type
        | SyntaxKind::from_clause
        | SyntaxKind::set_clause
        | SyntaxKind::set_target
        | SyntaxKind::set_target_list
        | SyntaxKind::table_ref
        | SyntaxKind::merge_when_list
        | SyntaxKind::merge_when_clause
        | SyntaxKind::opt_merge_when_condition
        | SyntaxKind::merge_update
        | SyntaxKind::merge_delete
        | SyntaxKind::merge_insert
        | SyntaxKind::merge_values_clause
        | SyntaxKind::cursor_options
        | SyntaxKind::opt_hold
        | SyntaxKind::select_no_parens
        | SyntaxKind::select_with_parens
        | SyntaxKind::simple_select
        | SyntaxKind::select_clause
        | SyntaxKind::sort_clause
        | SyntaxKind::opt_sort_clause
        | SyntaxKind::for_locking_clause
        | SyntaxKind::opt_select_limit
        | SyntaxKind::select_limit
        | SyntaxKind::opt_for_locking_clause
        | SyntaxKind::with_clause
        | SyntaxKind::opt_all_clause
        | SyntaxKind::opt_target_list
        | SyntaxKind::into_clause
        | SyntaxKind::group_clause
        | SyntaxKind::having_clause
        | SyntaxKind::window_clause
        | SyntaxKind::distinct_clause
        | SyntaxKind::values_clause
        | SyntaxKind::set_quantifier
        | SyntaxKind::cte_list
        | SyntaxKind::common_table_expr
        | SyntaxKind::opt_materialized
        | SyntaxKind::opt_search_clause
        | SyntaxKind::opt_cycle_clause
        | SyntaxKind::AexprConst
        | SyntaxKind::OptTempTableName
        | SyntaxKind::sortby_list
        | SyntaxKind::sortby
        | SyntaxKind::limit_clause
        | SyntaxKind::offset_clause
        | SyntaxKind::select_limit_value
        | SyntaxKind::select_offset_value
        | SyntaxKind::first_or_next
        | SyntaxKind::select_fetch_first_value => true,
        _ => false,
    }
}

/// Whether a kind is one of those from `row_or_rows` to `json_predicate_type_constraint`.
pub open spec fn in_kinds_from_1088(kind: SyntaxKind) -> bool {
    match kind {
        SyntaxKind::row_or_rows
        | SyntaxKind::c_expr
        | SyntaxKind::I_or_F_const
        | SyntaxKind::group_by_list
        | SyntaxKind::group_by_item
        | SyntaxKind::empty_grouping_set
        | SyntaxKind::cube_clause
        | SyntaxKind::rollup_clause
        | SyntaxKind::grouping_sets_clause
        | SyntaxKind::for_locking_items
        | SyntaxKind::for_locking_item
        | SyntaxKind::for_locking_strength
        | SyntaxKind::locked_rels_list
        | SyntaxKind::opt_nowait_or_skip
        | SyntaxKind::opt_alias_clause
        | SyntaxKind::tablesample_clause
        | SyntaxKind::func_table
        | SyntaxKind::func_alias_clause
        | SyntaxKind::xmltable
        | SyntaxKind::joined_table
        | SyntaxKind::alias_clause
        | SyntaxKind::join_type
        | SyntaxKind::join_qual
        | SyntaxKind::TableFuncElementList
        | SyntaxKind::opt_outer
        | SyntaxKind::opt_alias_clause_for_join_using
        | SyntaxKind::opt_repeatable_clause
        | SyntaxKind::opt_ordinality
        | SyntaxKind::rowsfrom_list
        | SyntaxKind::opt_col_def_list
        | SyntaxKind::rowsfrom_item
        | SyntaxKind::xmlexists_argument
        | SyntaxKind::xmltable_column_list
        | SyntaxKind::xml_namespace_list
        | SyntaxKind::xmltable_column_el
        | SyntaxKind::xmltable_column_option_list
        | SyntaxKind::xmltable_column_option_el
        | SyntaxKind::xml_namespace_el
        | SyntaxKind::opt_array_bounds
        | SyntaxKind::GenericType
        | SyntaxKind::Numeric
        | SyntaxKind::Bit
        | SyntaxKind::Character
        | SyntaxKind::ConstDatetime
        | SyntaxKind::ConstBit
        | SyntaxKind::ConstCharacter
        | SyntaxKind::opt_type_modifiers
        | SyntaxKind::opt_float
        | SyntaxKind::BitWithLength
        | SyntaxKind::BitWithoutLength
        | SyntaxKind::opt_varying
        | SyntaxKind::CharacterWithLength
        | SyntaxKind::CharacterWithoutLength
        | SyntaxKind::character
        | SyntaxKind::opt_timezone
        | SyntaxKind::interval_second
        | SyntaxKind::qual_Op
        | SyntaxKind::row
        | SyntaxKind::opt_asymmetric
        | SyntaxKind::in_expr
        | SyntaxKind::subquery_Op
        | SyntaxKind::sub_type
        | SyntaxKind::unicode_normal_form
        | SyntaxKind::json_predicate_type_constraint => true,
        _ => false,
    }
}

/// Whether a kind is one of those from `json_key_uniqueness_constraint_opt` to `col_name_keyword`.
pub open spec fn in_kinds_from_1152(kind: SyntaxKind) -> bool {
    match kind {
        SyntaxKind::json_key_uniqueness_constraint_opt
        | SyntaxKind::columnref
        | SyntaxKind::case_expr
        | SyntaxKind::func_expr
        | SyntaxKind::array_expr
        | SyntaxKind::explicit_row
        | SyntaxKind::implicit_row
        | SyntaxKind::func_arg_list
        | SyntaxKind::func_arg_expr
        | SyntaxKind::within_group_clause
        | SyntaxKind::filter_clause
        | SyntaxKind::over_clause
        | SyntaxKind::json_aggregate_func
        | SyntaxKind::func_expr_common_subexpr
        | SyntaxKind::extract_list
        | SyntaxKind::overlay_list
        | SyntaxKind::func_arg_list_opt
        | SyntaxKind::position_list
        | SyntaxKind::substr_list
        | SyntaxKind::trim_list
        | SyntaxKind::xml_attributes
        | SyntaxKind::xml_attribute_list
        | SyntaxKind::xml_whitespace_option
        | SyntaxKind::xml_root_version
        | SyntaxKind::opt_xml_root_standalone
        | SyntaxKind::xml_indent_option
        | SyntaxKind::json_name_and_value_list
        | SyntaxKind::json_object_constructor_null_clause_opt
        | SyntaxKind::json_output_clause_opt
        | SyntaxKind::json_value_expr_list
        | SyntaxKind::json_array_constructor_null_clause_opt
        | SyntaxKind::json_format_clause_opt
        | SyntaxKind::xml_attribute_el
        | SyntaxKind::xml_passing_mech
        | SyntaxKind::window_definition_list
        | SyntaxKind::window_definition
        | SyntaxKind::window_specification
        | SyntaxKind::opt_existing_window_name
        | SyntaxKind::opt_partition_clause
        | SyntaxKind::opt_frame_clause
        | SyntaxKind::frame_extent
        | SyntaxKind::opt_window_exclusion_clause
        | SyntaxKind::frame_bound
        | SyntaxKind::MathOp
        | SyntaxKind::array_expr_list
        | SyntaxKind::extract_arg
        | SyntaxKind::case_arg
        | SyntaxKind::when_clause_list
        | SyntaxKind::case_default
        | SyntaxKind::when_clause
        | SyntaxKind::opt_slice_bound
        | SyntaxKind::indirection_el
        | SyntaxKind::json_encoding_clause_opt
        | SyntaxKind::json_name_and_value
        | SyntaxKind::json_value_expr
        | SyntaxKind::json_array_aggregate_order_by_clause_opt
        | SyntaxKind::target_el
        | SyntaxKind::BareColLabel
        | SyntaxKind::ConstTypename
        | SyntaxKind::opt_distinct_clause
        | SyntaxKind::plassign_target
        | SyntaxKind::plassign_equals
        | SyntaxKind::unreserved_keyword
        | SyntaxKind::col_name_keyword => true,
        _ => false,
    }
}

/// Whether a kind is one of those from `bare_label_keyword` to `Root`.
pub open spec fn in_kinds_from_1216(kind: SyntaxKind) -> bool {
    match kind {
        SyntaxKind::bare_label_keyword
        | SyntaxKind::Dollaraccept
        | SyntaxKind::parse_toplevel
        | SyntaxKind::C_COMMENT
        | SyntaxKind::SQL_COMMENT
        | SyntaxKind::Whitespace
        | SyntaxKind::Root => true,
        _ => false,
    }
}

/// Whether a kind comes before `MODE_TYPE_NAME` in the declaration.
pub open spec fn kind_before_0(kind: SyntaxKind) -> bool {
    false
}

/// Whether a kind comes before `SERIALIZABLE` in the declaration.
pub open spec fn kind_before_64(kind: SyntaxKind) -> bool {
    in_kinds_from_0(kind)
}

/// Whether a kind comes before `FOR` in the declaration.
pub open spec fn kind_before_128(kind: SyntaxKind) -> bool {
    in_kinds_from_0(kind) || in_kinds_from_64(kind)
}

/// Whether a kind comes before `LANGUAGE` in the declaration.
pub open spec fn kind_before_192(kind: SyntaxKind) -> bool {
    in_kinds_from_0(kind) || in_kinds_from_64(kind) || in_kinds_from_128(kind)
}

/// Whether a kind comes before `LARGE_P` in the declaration.
pub open spec fn kind_before_256(kind: SyntaxKind) -> bool {
    in_kinds_from_0(kind) || in_kinds_from_64(kind) || in_kinds_from_128(kind) || in_kinds_from_192(kind)
}

/// Whether a kind comes before `UNLISTEN` in the declaration.
pub open spec fn kind_before_320(kind: SyntaxKind) -> bool {
    in_kinds_from_0(kind) || in_kinds_from_64(kind) || in_kinds_from_128(kind) || in_kinds_from_192(kind) || in_kinds_from_256(kind)
}

/// Whether a kind comes before `LBracket` in the declaration.
pub open spec fn kind_before_384(kind: SyntaxKind) -> bool {
    in_kinds_from_0(kind) || in_kinds_from_64(kind) || in_kinds_from_128(kind) || in_kinds_from_192(kind) || in_kinds_from_256(kind) || in_kinds_from_320(kind)
}

/// Whether a kind comes before `SUBSTRING` in the declaration.
pub open spec fn kind_before_448(kind: SyntaxKind) -> bool {
    in_kinds_from_0(kind) || in_kinds_from_64(kind) || in_kinds_from_128(kind) || in_kinds_from_192(kind) || in_kinds_from_256(kind) || in_kinds_from_320(kind) || in_kinds_from_384(kind)
}

/// Whether a kind comes before `Dollarend` in the declaration.
pub open spec fn kind_before_512(kind: SyntaxKind) -> bool {
    in_kinds_from_0(kind) || in_kinds_from_64(kind) || in_kinds_from_128(kind) || in_kinds_from_192(kind) || in_kinds_from_256(kind) || in_kinds_from_320(kind) || in_kinds_from_384(kind) || in_kinds_from_448(kind)
}

/// Whether a kind comes before `AlterOpFamilyStmt` in the declaration.
pub open spec fn kind_before_576(kind: SyntaxKind) -> bool {
    in_kinds_from_0(kind) || in_kinds_from_64(kind) || in_kinds_from_128(kind) || in_kinds_from_192(kind) || in_kinds_from_256(kind) || in_kinds_from_320(kind) || in_kinds_from_384(kind) || in_kinds_from_448(kind) || in_kinds_from_512(kind)
}

/// Whether a kind comes before `VariableResetStmt` in the declaration.
pub open spec fn kind_before_640(kind: SyntaxKind) -> bool {
    in_kinds_from_0(kind) || in_kinds_from_64(kind) || in_kinds_from_128(kind) || in_kinds_from_192(kind) || in_kinds_from_256(kind) || in_kinds_from_320(kind) || in_kinds_from_384(kind) || in_kinds_from_448(kind) || in_kinds_from_512(kind) || in_kinds_from_576(kind)
}

/// Whether a kind comes before `opt_drop_behavior` in the declaration.
pub open spec fn kind_before_704(kind: SyntaxKind) -> bool {
    in_kinds_from_0(kind) || in_kinds_from_64(kind) || in_kinds_from_128(kind) || in_kinds_from_192(kind) || in_kinds_from_256(kind) || in_kinds_from_320(kind) || in_kinds_from_384(kind) || in_kinds_from_448(kind) || in_kinds_from_512(kind) || in_kinds_from_576(kind) || in_kinds_from_640(kind)
}

/// Whether a kind comes before `opt_definition` in the declaration.
pub open spec fn kind_before_768(kind: SyntaxKind) -> bool {
    in_kinds_from_0(kind) || in_kinds_from_64(kind) || in_kinds_from_128(kind) || in_kinds_from_192(kind) || in_kinds_from_256(kind) || in_kinds_from_320(kind) || in_kinds_from_384(kind) || in_kinds_from_448(kind) || in_kinds_from_512(kind) || in_kinds_from_576(kind) || in_kinds_from_640(kind) || in_kinds_from_704(kind)
}

/// Whether a kind comes before `alter_generic_option_list` in the declaration.
pub open spec fn kind_before_832(kind: SyntaxKind) -> bool {
    in_kinds_from_0(kind) || in_kinds_from_64(kind) || in_kinds_from_128(kind) || in_kinds_from_192(kind) || in_kinds_from_256(kind) || in_kinds_from_320(kind) || in_kinds_from_384(kind) || in_kinds_from_448(kind) || in_kinds_from_512(kind) || in_kinds_from_576(kind) || in_kinds_from_640(kind) || in_kinds_from_704(kind) || in_kinds_from_768(kind)
}

/// Whether a kind comes before `opclass_drop` in the declaration.
pub open spec fn kind_before_896(kind: SyntaxKind) -> bool {
    in_kinds_from_0(kind) || in_kinds_from_64(kind) || in_kinds_from_128(kind) || in_kinds_from_192(kind) || in_kinds_from_256(kind) || in_kinds_from_320(kind) || in_kinds_from_384(kind) || in_kinds_from_448(kind) || in_kinds_from_512(kind) || in_kinds_from_576(kind) || in_kinds_from_640(kind) || in_kinds_from_704(kind) || in_kinds_from_768(kind) || in_kinds_from_832(kind)
}

/// Whether a kind comes before `ReturnStmt` in the declaration.
pub open spec fn kind_before_960(kind: SyntaxKind) -> bool {
    in_kinds_from_0(kind) || in_kinds_from_64(kind) || in_kinds_from_128(kind) || in_kinds_from_192(kind) || in_kinds_from_256(kind) || in_kinds_from_320(kind) || in_kinds_from_384(kind) || in_kinds_from_448(kind) || in_kinds_from_512(kind) || in_kinds_from_576(kind) || in_kinds_from_640(kind) || in_kinds_from_704(kind) || in_kinds_from_768(kind) || in_kinds_from_832(kind) || in_kinds_from_896(kind)
}

/// Whether a kind comes before `insert_rest` in the declaration.
pub open spec fn kind_before_1024(kind: SyntaxKind) -> bool {
    in_kinds_from_0(kind) || in_kinds_from_64(kind) || in_kinds_from_128(kind) || in_kinds_from_192(kind) || in_kinds_from_256(kind) || in_kinds_from_320(kind) || in_kinds_from_384(kind) || in_kinds_from_448(kind) || in_kinds_from_512(kind) || in_kinds_from_576(kind) || in_kinds_from_640(kind) || in_kinds_from_704(kind) || in_kinds_from_768(kind) || in_kinds_from_832(kind) || in_kinds_from_896(kind) || in_kinds_from_960(kind)
}

/// Whether a kind comes before `row_or_rows` in the declaration.
pub open spec fn kind_before_1088(kind: SyntaxKind) -> bool {
    in_kinds_from_0(kind) || in_kinds_from_64(kind) || in_kinds_from_128(kind) || in_kinds_from_192(kind) || in_kinds_from_256(kind) || in_kinds_from_320(kind) || in_kinds_from_384(kind) || in_kinds_from_448(kind) || in_kinds_from_512(kind) || in_kinds_from_576(kind) || in_kinds_from_640(kind) || in_kinds_from_704(kind) || in_kinds_from_768(kind) || in_kinds_from_832(kind) || in_kinds_from_896(kind) || in_kinds_from_960(kind) || in_kinds_from_1024(kind)
}

/// Whether a kind comes before `json_key_uniqueness_constraint_opt` in the declaration.
pub open spec fn kind_before_1152(kind: SyntaxKind) -> bool {
    in_kinds_from_0(kind) || in_kinds_from_64(kind) || in_kinds_from_128(kind) || in_kinds_from_192(kind) || in_kinds_from_256(kind) || in_kinds_from_320(kind) || in_kinds_from_384(kind) || in_kinds_from_448(kind) || in_kinds_from_512(kind) || in_kinds_from_576(kind) || in_kinds_from_640(kind) || in_kinds_from_704(kind) || in_kinds_from_768(kind) || in_kinds_from_832(kind) || in_kinds_from_896(kind) || in_kinds_from_960(kind) || in_kinds_from_1024(kind) || in_kinds_from_1088(kind)
}

/// Whether a kind comes before `bare_label_keyword` in the declaration.
pub open spec fn kind_before_1216(kind: SyntaxKind) -> bool {
    in_kinds_from_0(kind) || in_kinds_from_64(kind) || in_kinds_from_128(kind) || in_kinds_from_192(kind) || in_kinds_from_256(kind) || in_kinds_from_320(kind) || in_kinds_from_384(kind) || in_kinds_from_448(kind) || in_kinds_from_512(kind) || in_kinds_from_576(kind) || in_kinds_from_640(kind) || in_kinds_from_704(kind) || in_kinds_from_768(kind) || in_kinds_from_832(kind) || in_kinds_from_896(kind) || in_kinds_from_960(kind) || in_kinds_from_1024(kind) || in_kinds_from_1088(kind) || in_kinds_from_1152(kind)
}

/// The number of a kind from `bare_label_keyword` on; none for a kind before it.
fn code_from_1216(kind: SyntaxKind) -> (c: Option<u32>)
    ensures
        match c {
            Some(c) => 1216 <= c < KIND_COUNT && spec_kind_from_1216(c) == kind,
            None => kind_before_1216(kind),
        },
{
    match kind {
        SyntaxKind::bare_label_keyword => Some(1216),
        SyntaxKind::Dollaraccept => Some(1217),
        SyntaxKind::parse_toplevel => Some(1218),
        SyntaxKind::C_COMMENT => Some(1219),
        SyntaxKind::SQL_COMMENT => Some(1220),
        SyntaxKind::Whitespace => Some(1221),
        SyntaxKind::Root => Some(1222),
        _ => None,
    }
}

/// The number of a kind from `json_key_uniqueness_constraint_opt` on; none for a kind before it.
fn code_from_1152(kind: SyntaxKind) -> (c: Option<u32>)
    ensures
        match c {
            Some(c) => 1152 <= c < KIND_COUNT && spec_kind_from_1152(c) == kind,
            None => kind_before_1152(kind),
        },
{
    match kind {
        SyntaxKind::json_key_uniqueness_constraint_opt => Some(1152),
        SyntaxKind::columnref => Some(1153),
        SyntaxKind::case_expr => Some(1154),
        SyntaxKind::func_expr => Some(1155),
        SyntaxKind::array_expr => Some(1156),
        SyntaxKind::explicit_row => Some(1157),
        SyntaxKind::implicit_row => Some(1158),
        SyntaxKind::func_arg_list => Some(1159),
        SyntaxKind::func_arg_expr => Some(1160),
        SyntaxKind::within_group_clause => Some(1161),
        SyntaxKind::filter_clause => Some(1162),
        SyntaxKind::over_clause => Some(1163),
        SyntaxKind::json_aggregate_func => Some(1164),
        SyntaxKind::func_expr_common_subexpr => Some(1165),
        SyntaxKind::extract_list => Some(1166),
        SyntaxKind::overlay_list => Some(1167),
        SyntaxKind::func_arg_list_opt => Some(1168),
        SyntaxKind::position_list => Some(1169),
        SyntaxKind::substr_list => Some(1170),
        SyntaxKind::trim_list => Some(1171),
        SyntaxKind::xml_attributes => Some(1172),
        SyntaxKind::xml_attribute_list => Some(1173),
        SyntaxKind::xml_whitespace_option => Some(1174),
        SyntaxKind::xml_root_version => Some(1175),
        SyntaxKind::opt_xml_root_standalone => Some(1176),
        SyntaxKind::xml_indent_option => Some(1177),
        SyntaxKind::json_name_and_value_list => Some(1178),
        SyntaxKind::json_object_constructor_null_clause_opt => Some(1179),
        SyntaxKind::json_output_clause_opt => Some(1180),
        SyntaxKind::json_value_expr_list => Some(1181),
        SyntaxKind::json_array_constructor_null_clause_opt => Some(1182),
        SyntaxKind::json_format_clause_opt => Some(1183),
        SyntaxKind::xml_attribute_el => Some(1184),
        SyntaxKind::xml_passing_mech => Some(1185),
        SyntaxKind::window_definition_list => Some(1186),
        SyntaxKind::window_definition => Some(1187),
        SyntaxKind::window_specification => Some(1188),
        SyntaxKind::opt_existing_window_name => Some(1189),
        SyntaxKind::opt_partition_clause => Some(1190),
        SyntaxKind::opt_frame_clause => Some(1191),
        SyntaxKind::frame_extent => Some(1192),
        SyntaxKind::opt_window_exclusion_clause => Some(1193),
        SyntaxKind::frame_bound => Some(1194),
        SyntaxKind::MathOp => Some(1195),
        SyntaxKind::array_expr_list => Some(1196),
        SyntaxKind::extract_arg => Some(1197),
        SyntaxKind::case_arg => Some(1198),
        SyntaxKind::when_clause_list => Some(1199),
        SyntaxKind::case_default => Some(1200),
        SyntaxKind::when_clause => Some(1201),
        SyntaxKind::opt_slice_bound => Some(1202),
        SyntaxKind::indirection_el => Some(1203),
        SyntaxKind::json_encoding_clause_opt => Some(1204),
        SyntaxKind::json_name_and_value => Some(1205),
        SyntaxKind::json_value_expr => Some(1206),
        SyntaxKind::json_array_aggregate_order_by_clause_opt => Some(1207),
        SyntaxKind::target_el => Some(1208),
        SyntaxKind::BareColLabel => Some(1209),
        SyntaxKind::ConstTypename => Some(1210),
        SyntaxKind::opt_distinct_clause => Some(1211),
        SyntaxKind::plassign_target => Some(1212),
        SyntaxKind::plassign_equals => Some(1213),
        SyntaxKind::unreserved_keyword => Some(1214),
        SyntaxKind::col_name_keyword => Some(1215),
        _ => code_from_1216(kind),
    }
}

/// The number of a kind from `row_or_rows` on; none for a kind before it.
fn code_from_1088(kind: SyntaxKind) -> (c: Option<u32>)
    ensures
        match c {
            Some(c) => 1088 <= c < KIND_COUNT && spec_kind_from_1088(c) == kind,
            None => kind_before_1088(kind),
        },
{
    match kind {
        SyntaxKind::row_or_rows => Some(1088),
        SyntaxKind::c_expr => Some(1089),
        SyntaxKind::I_or_F_const => Some(1090),
        SyntaxKind::group_by_list => Some(1091),
        SyntaxKind::group_by_item => Some(1092),
        SyntaxKind::empty_grouping_set => Some(1093),
        SyntaxKind::cube_clause => Some(1094),
        SyntaxKind::rollup_clause => Some(1095),
        SyntaxKind::grouping_sets_clause => Some(1096),
        SyntaxKind::for_locking_items => Some(1097),
        SyntaxKind::for_locking_item => Some(1098),
        SyntaxKind::for_locking_strength => Some(1099),
        SyntaxKind::locked_rels_list => Some(1100),
        SyntaxKind::opt_nowait_or_skip => Some(1101),
        SyntaxKind::opt_alias_clause => Some(1102),
        SyntaxKind::tablesample_clause => Some(1103),
        SyntaxKind::func_table => Some(1104),
        SyntaxKind::func_alias_clause => Some(1105),
        SyntaxKind::xmltable => Some(1106),
        SyntaxKind::joined_table => Some(1107),
        SyntaxKind::alias_clause => Some(1108),
        SyntaxKind::join_type => Some(1109),
        SyntaxKind::join_qual => Some(1110),
        SyntaxKind::TableFuncElementList => Some(1111),
        SyntaxKind::opt_outer => Some(1112),
        SyntaxKind::opt_alias_clause_for_join_using => Some(1113),
        SyntaxKind::opt_repeatable_clause => Some(1114),
        SyntaxKind::opt_ordinality => Some(1115),
        SyntaxKind::rowsfrom_list => Some(1116),
        SyntaxKind::opt_col_def_list => Some(1117),
        SyntaxKind::rowsfrom_item => Some(1118),
        SyntaxKind::xmlexists_argument => Some(1119),
        SyntaxKind::xmltable_column_list => Some(1120),
        SyntaxKind::xml_namespace_list => Some(1121),
        SyntaxKind::xmltable_column_el => Some(1122),
        SyntaxKind::xmltable_column_option_list => Some(1123),
        SyntaxKind::xmltable_column_option_el => Some(1124),
        SyntaxKind::xml_namespace_el => Some(1125),
        SyntaxKind::opt_array_bounds => Some(1126),
        SyntaxKind::GenericType => Some(1127),
        SyntaxKind::Numeric => Some(1128),
        SyntaxKind::Bit => Some(1129),
        SyntaxKind::Character => Some(1130),
        SyntaxKind::ConstDatetime => Some(1131),
        SyntaxKind::ConstBit => Some(1132),
        SyntaxKind::ConstCharacter => Some(1133),
        SyntaxKind::opt_type_modifiers => Some(1134),
        SyntaxKind::opt_float => Some(1135),
        SyntaxKind::BitWithLength => Some(1136),
        SyntaxKind::BitWithoutLength => Some(1137),
        SyntaxKind::opt_varying => Some(1138),
        SyntaxKind::CharacterWithLength => Some(1139),
        SyntaxKind::CharacterWithoutLength => Some(1140),
        SyntaxKind::character => Some(1141),
        SyntaxKind::opt_timezone => Some(1142),
        SyntaxKind::interval_second => Some(1143),
        SyntaxKind::qual_Op => Some(1144),
        SyntaxKind::row => Some(1145),
        SyntaxKind::opt_asymmetric => Some(1146),
        SyntaxKind::in_expr => Some(1147),
        SyntaxKind::subquery_Op => Some(1148),
        SyntaxKind::sub_type => Some(1149),
        SyntaxKind::unicode_normal_form => Some(1150),
        SyntaxKind::json_predicate_type_constraint => Some(1151),
        _ => code_from_1152(kind),
    }
}

/// The number of a kind from `insert_rest` on; none for a kind before it.
fn code_from_1024(kind: SyntaxKind) -> (c: Option<u32>)
    ensures
        match c {
            Some(c) => 1024 <= c < KIND_COUNT && spec_kind_from_1024(c) == kind,
            None => kind_before_1024(kind),
        },
{
    match kind {
        SyntaxKind::insert_rest => Some(1024),
        SyntaxKind::opt_on_conflict => Some(1025),
        SyntaxKind::returning_clause => Some(1026),
        SyntaxKind::override_kind => Some(1027),
        SyntaxKind::insert_column_list => Some(1028),
        SyntaxKind::insert_column_item => Some(1029),
        SyntaxKind::opt_indirection => Some(1030),
        SyntaxKind::opt_conf_expr => Some(1031),
        SyntaxKind::set_clause_list => Some(1032),
        SyntaxKind::target_list => Some(1033),
        SyntaxKind::relation_expr_opt_alias => Some(1034),
        SyntaxKind::using_clause => Some(1035),
        SyntaxKind::where_or_current_clause => Some(1036),
        SyntaxKind::opt_lock => Some(1037),
        SyntaxKind::lock_type => Some(1038),
        SyntaxKind::from_clause => Some(1039),
        SyntaxKind::set_clause => Some(1040),
        SyntaxKind::set_target => Some(1041),
        SyntaxKind::set_target_list => Some(1042),
        SyntaxKind::table_ref => Some(1043),
        SyntaxKind::merge_when_list => Some(1044),
        SyntaxKind::merge_when_clause => Some(1045),
        SyntaxKind::opt_merge_when_condition => Some(1046),
        SyntaxKind::merge_update => Some(1047),
        SyntaxKind::merge_delete => Some(1048),
        SyntaxKind::merge_insert => Some(1049),
        SyntaxKind::merge_values_clause => Some(1050),
        SyntaxKind::cursor_options => Some(1051),
        SyntaxKind::opt_hold => Some(1052),
        SyntaxKind::select_no_parens => Some(1053),
        SyntaxKind::select_with_parens => Some(1054),
        SyntaxKind::simple_select => Some(1055),
        SyntaxKind::select_clause => Some(1056),
        SyntaxKind::sort_clause => Some(1057),
        SyntaxKind::opt_sort_clause => Some(1058),
        SyntaxKind::for_locking_clause => Some(1059),
        SyntaxKind::opt_select_limit => Some(1060),
        SyntaxKind::select_limit => Some(1061),
        SyntaxKind::opt_for_locking_clause => Some(1062),
        SyntaxKind::with_clause => Some(1063),
        SyntaxKind::opt_all_clause => Some(1064),
        SyntaxKind::opt_target_list => Some(1065),
        SyntaxKind::into_clause => Some(1066),
        SyntaxKind::group_clause => Some(1067),
        SyntaxKind::having_clause => Some(1068),
        SyntaxKind::window_clause => Some(1069),
        SyntaxKind::distinct_clause => Some(1070),
        SyntaxKind::values_clause => Some(1071),
        SyntaxKind::set_quantifier => Some(1072),
        SyntaxKind::cte_list => Some(1073),
        SyntaxKind::common_table_expr => Some(1074),
        SyntaxKind::opt_materialized => Some(1075),
        SyntaxKind::opt_search_clause => Some(1076),
        SyntaxKind::opt_cycle_clause => Some(1077),
        SyntaxKind::AexprConst => Some(1078),
        SyntaxKind::OptTempTableName => Some(1079),
        SyntaxKind::sortby_list => Some(1080),
        SyntaxKind::sortby => Some(1081),
        SyntaxKind::limit_clause => Some(1082),
        SyntaxKind::offset_clause => Some(1083),
        SyntaxKind::select_limit_value => Some(1084),
        SyntaxKind::select_offset_value => Some(1085),
        SyntaxKind::first_or_next => Some(1086),
        SyntaxKind::select_fetch_first_value => Some(1087),
        _ => code_from_1088(kind),
    }
}

/// The number of a kind from `ReturnStmt` on; none for a kind before it.
fn code_from_960(kind: SyntaxKind) -> (c: Option<u32>)
    ensures
        match c {
            Some(c) => 960 <= c < KIND_COUNT && spec_kind_from_960(c) == kind,
            None => kind_before_960(kind),
        },
{
    match kind {
        SyntaxKind::ReturnStmt => Some(960),
        SyntaxKind::routine_body_stmt_list => Some(961),
        SyntaxKind::routine_body_stmt => Some(962),
        SyntaxKind::table_func_column => Some(963),
        SyntaxKind::alterfunc_opt_list => Some(964),
        SyntaxKind::opt_restrict => Some(965),
        SyntaxKind::operator_with_argtypes_list => Some(966),
        SyntaxKind::all_Op => Some(967),
        SyntaxKind::oper_argtypes => Some(968),
        SyntaxKind::dostmt_opt_list => Some(969),
        SyntaxKind::dostmt_opt_item => Some(970),
        SyntaxKind::cast_context => Some(971),
        SyntaxKind::opt_if_exists => Some(972),
        SyntaxKind::transform_element_list => Some(973),
        SyntaxKind::opt_reindex_option_list => Some(974),
        SyntaxKind::reindex_target_relation => Some(975),
        SyntaxKind::reindex_target_all => Some(976),
        SyntaxKind::utility_option_list => Some(977),
        SyntaxKind::opt_no => Some(978),
        SyntaxKind::operator_def_list => Some(979),
        SyntaxKind::operator_def_elem => Some(980),
        SyntaxKind::operator_def_arg => Some(981),
        SyntaxKind::pub_obj_list => Some(982),
        SyntaxKind::extended_relation_expr => Some(983),
        SyntaxKind::PublicationObjSpec => Some(984),
        SyntaxKind::event => Some(985),
        SyntaxKind::opt_instead => Some(986),
        SyntaxKind::RuleActionList => Some(987),
        SyntaxKind::RuleActionStmt => Some(988),
        SyntaxKind::RuleActionMulti => Some(989),
        SyntaxKind::RuleActionStmtOrEmpty => Some(990),
        SyntaxKind::notify_payload => Some(991),
        SyntaxKind::opt_transaction => Some(992),
        SyntaxKind::opt_transaction_chain => Some(993),
        SyntaxKind::transaction_mode_list_or_empty => Some(994),
        SyntaxKind::iso_level => Some(995),
        SyntaxKind::transaction_mode_item => Some(996),
        SyntaxKind::opt_check_option => Some(997),
        SyntaxKind::file_name => Some(998),
        SyntaxKind::createdb_opt_list => Some(999),
        SyntaxKind::createdb_opt_items => Some(1000),
        SyntaxKind::createdb_opt_item => Some(1001),
        SyntaxKind::createdb_opt_name => Some(1002),
        SyntaxKind::opt_equal => Some(1003),
        SyntaxKind::drop_option_list => Some(1004),
        SyntaxKind::drop_option => Some(1005),
        SyntaxKind::any_with => Some(1006),
        SyntaxKind::opt_verbose => Some(1007),
        SyntaxKind::cluster_index_specification => Some(1008),
        SyntaxKind::opt_full => Some(1009),
        SyntaxKind::opt_freeze => Some(1010),
        SyntaxKind::opt_analyze => Some(1011),
        SyntaxKind::opt_vacuum_relation_list => Some(1012),
        SyntaxKind::analyze_keyword => Some(1013),
        SyntaxKind::utility_option_elem => Some(1014),
        SyntaxKind::utility_option_name => Some(1015),
        SyntaxKind::utility_option_arg => Some(1016),
        SyntaxKind::vacuum_relation => Some(1017),
        SyntaxKind::vacuum_relation_list => Some(1018),
        SyntaxKind::ExplainableStmt => Some(1019),
        SyntaxKind::prep_type_clause => Some(1020),
        SyntaxKind::execute_param_clause => Some(1021),
        SyntaxKind::opt_with_clause => Some(1022),
        SyntaxKind::insert_target => Some(1023),
        _ => code_from_1024(kind),
    }
}

/// The number of a kind from `opclass_drop` on; none for a kind before it.
fn code_from_896(kind: SyntaxKind) -> (c: Option<u32>)
    ensures
        match c {
            Some(c) => 896 <= c < KIND_COUNT && spec_kind_from_896(c) == kind,
            None => kind_before_896(kind),
        },
{
    match kind {
        SyntaxKind::opclass_drop => Some(896),
        SyntaxKind::any_name_list => Some(897),
        SyntaxKind::drop_type_name => Some(898),
        SyntaxKind::name_list => Some(899),
        SyntaxKind::object_type_name_on_any_name => Some(900),
        SyntaxKind::type_name_list => Some(901),
        SyntaxKind::attr_name => Some(902),
        SyntaxKind::opt_table => Some(903),
        SyntaxKind::opt_restart_seqs => Some(904),
        SyntaxKind::comment_text => Some(905),
        SyntaxKind::opt_provider => Some(906),
        SyntaxKind::security_label => Some(907),
        SyntaxKind::fetch_args => Some(908),
        SyntaxKind::from_in => Some(909),
        SyntaxKind::opt_from_in => Some(910),
        SyntaxKind::privileges => Some(911),
        SyntaxKind::privilege_target => Some(912),
        SyntaxKind::grantee_list => Some(913),
        SyntaxKind::opt_grant_grant_option => Some(914),
        SyntaxKind::opt_granted_by => Some(915),
        SyntaxKind::privilege_list => Some(916),
        SyntaxKind::privilege => Some(917),
        SyntaxKind::parameter_name => Some(918),
        SyntaxKind::parameter_name_list => Some(919),
        SyntaxKind::function_with_argtypes_list => Some(920),
        SyntaxKind::grantee => Some(921),
        SyntaxKind::grant_role_opt_list => Some(922),
        SyntaxKind::grant_role_opt => Some(923),
        SyntaxKind::grant_role_opt_value => Some(924),
        SyntaxKind::DefACLOptionList => Some(925),
        SyntaxKind::DefACLAction => Some(926),
        SyntaxKind::DefACLOption => Some(927),
        SyntaxKind::defacl_privilege_target => Some(928),
        SyntaxKind::opt_unique => Some(929),
        SyntaxKind::index_params => Some(930),
        SyntaxKind::opt_include => Some(931),
        SyntaxKind::opt_asc_desc => Some(932),
        SyntaxKind::opt_nulls_order => Some(933),
        SyntaxKind::index_elem_options => Some(934),
        SyntaxKind::index_including_params => Some(935),
        SyntaxKind::func_args_with_defaults => Some(936),
        SyntaxKind::func_return => Some(937),
        SyntaxKind::opt_createfunc_opt_list => Some(938),
        SyntaxKind::opt_routine_body => Some(939),
        SyntaxKind::table_func_column_list => Some(940),
        SyntaxKind::func_args_list => Some(941),
        SyntaxKind::func_arg => Some(942),
        SyntaxKind::func_args => Some(943),
        SyntaxKind::type_func_name_keyword => Some(944),
        SyntaxKind::indirection => Some(945),
        SyntaxKind::func_args_with_defaults_list => Some(946),
        SyntaxKind::func_arg_with_default => Some(947),
        SyntaxKind::arg_class => Some(948),
        SyntaxKind::param_name => Some(949),
        SyntaxKind::type_function_name => Some(950),
        SyntaxKind::aggr_args_list => Some(951),
        SyntaxKind::aggr_arg => Some(952),
        SyntaxKind::aggregate_with_argtypes_list => Some(953),
        SyntaxKind::createfunc_opt_list => Some(954),
        SyntaxKind::createfunc_opt_item => Some(955),
        SyntaxKind::FunctionSetResetClause => Some(956),
        SyntaxKind::func_as => Some(957),
        SyntaxKind::transform_type_list => Some(958),
        SyntaxKind::common_func_opt_item => Some(959),
        _ => code_from_960(kind),
    }
}

/// The number of a kind from `alter_generic_option_list` on; none for a kind before it.
fn code_from_832(kind: SyntaxKind) -> (c: Option<u32>)
    ensures
        match c {
            Some(c) => 832 <= c < KIND_COUNT && spec_kind_from_832(c) == kind,
            None => kind_before_832(kind),
        },
{
    match kind {
        SyntaxKind::alter_generic_option_list => Some(832),
        SyntaxKind::alter_generic_option_elem => Some(833),
        SyntaxKind::generic_option_name => Some(834),
        SyntaxKind::generic_option_arg => Some(835),
        SyntaxKind::opt_type => Some(836),
        SyntaxKind::opt_foreign_server_version => Some(837),
        SyntaxKind::foreign_server_version => Some(838),
        SyntaxKind::import_qualification => Some(839),
        SyntaxKind::import_qualification_type => Some(840),
        SyntaxKind::relation_expr_list => Some(841),
        SyntaxKind::auth_ident => Some(842),
        SyntaxKind::RowSecurityDefaultPermissive => Some(843),
        SyntaxKind::RowSecurityDefaultForCmd => Some(844),
        SyntaxKind::RowSecurityDefaultToRole => Some(845),
        SyntaxKind::RowSecurityOptionalExpr => Some(846),
        SyntaxKind::RowSecurityOptionalWithCheck => Some(847),
        SyntaxKind::RowSecurityOptionalToRole => Some(848),
        SyntaxKind::row_security_cmd => Some(849),
        SyntaxKind::am_type => Some(850),
        SyntaxKind::TriggerActionTime => Some(851),
        SyntaxKind::TriggerEvents => Some(852),
        SyntaxKind::TriggerReferencing => Some(853),
        SyntaxKind::TriggerForSpec => Some(854),
        SyntaxKind::TriggerWhen => Some(855),
        SyntaxKind::FUNCTION_or_PROCEDURE => Some(856),
        SyntaxKind::func_name => Some(857),
        SyntaxKind::TriggerFuncArgs => Some(858),
        SyntaxKind::OptConstrFromTable => Some(859),
        SyntaxKind::TriggerOneEvent => Some(860),
        SyntaxKind::TriggerTransitions => Some(861),
        SyntaxKind::TriggerTransition => Some(862),
        SyntaxKind::TransitionOldOrNew => Some(863),
        SyntaxKind::TransitionRowOrTable => Some(864),
        SyntaxKind::TransitionRelName => Some(865),
        SyntaxKind::TriggerForOptEach => Some(866),
        SyntaxKind::TriggerForType => Some(867),
        SyntaxKind::TriggerFuncArg => Some(868),
        SyntaxKind::ConstraintAttributeElem => Some(869),
        SyntaxKind::event_trigger_when_list => Some(870),
        SyntaxKind::event_trigger_when_item => Some(871),
        SyntaxKind::event_trigger_value_list => Some(872),
        SyntaxKind::enable_trigger => Some(873),
        SyntaxKind::aggr_args => Some(874),
        SyntaxKind::definition => Some(875),
        SyntaxKind::old_aggr_definition => Some(876),
        SyntaxKind::OptTableFuncElementList => Some(877),
        SyntaxKind::opt_enum_val_list => Some(878),
        SyntaxKind::def_list => Some(879),
        SyntaxKind::def_elem => Some(880),
        SyntaxKind::func_type => Some(881),
        SyntaxKind::reserved_keyword => Some(882),
        SyntaxKind::qual_all_Op => Some(883),
        SyntaxKind::old_aggr_list => Some(884),
        SyntaxKind::old_aggr_elem => Some(885),
        SyntaxKind::enum_val_list => Some(886),
        SyntaxKind::opt_if_not_exists => Some(887),
        SyntaxKind::opt_default => Some(888),
        SyntaxKind::opt_opfamily => Some(889),
        SyntaxKind::opclass_item_list => Some(890),
        SyntaxKind::opclass_item => Some(891),
        SyntaxKind::opclass_purpose => Some(892),
        SyntaxKind::opt_recheck => Some(893),
        SyntaxKind::type_list => Some(894),
        SyntaxKind::opclass_drop_list => Some(895),
        _ => code_from_896(kind),
    }
}

/// The number of a kind from `opt_definition` on; none for a kind before it.
fn code_from_768(kind: SyntaxKind) -> (c: Option<u32>)
    ensures
        match c {
            Some(c) => 768 <= c < KIND_COUNT && spec_kind_from_768(c) == kind,
            None => kind_before_768(kind),
        },
{
    match kind {
        SyntaxKind::opt_definition => Some(768),
        SyntaxKind::OptConsTableSpace => Some(769),
        SyntaxKind::opt_no_inherit => Some(770),
        SyntaxKind::b_expr => Some(771),
        SyntaxKind::key_match => Some(772),
        SyntaxKind::key_actions => Some(773),
        SyntaxKind::TableLikeOptionList => Some(774),
        SyntaxKind::TableLikeOption => Some(775),
        SyntaxKind::ConstraintElem => Some(776),
        SyntaxKind::opt_c_include => Some(777),
        SyntaxKind::ExistingIndex => Some(778),
        SyntaxKind::access_method_clause => Some(779),
        SyntaxKind::ExclusionConstraintList => Some(780),
        SyntaxKind::OptWhereClause => Some(781),
        SyntaxKind::columnElem => Some(782),
        SyntaxKind::ExclusionConstraintElem => Some(783),
        SyntaxKind::index_elem => Some(784),
        SyntaxKind::any_operator => Some(785),
        SyntaxKind::key_update => Some(786),
        SyntaxKind::key_delete => Some(787),
        SyntaxKind::key_action => Some(788),
        SyntaxKind::PartitionSpec => Some(789),
        SyntaxKind::part_params => Some(790),
        SyntaxKind::part_elem => Some(791),
        SyntaxKind::opt_collate => Some(792),
        SyntaxKind::opt_qualified_name => Some(793),
        SyntaxKind::func_expr_windowless => Some(794),
        SyntaxKind::opt_name_list => Some(795),
        SyntaxKind::stats_params => Some(796),
        SyntaxKind::from_list => Some(797),
        SyntaxKind::stats_param => Some(798),
        SyntaxKind::create_as_target => Some(799),
        SyntaxKind::opt_with_data => Some(800),
        SyntaxKind::OptNoLog => Some(801),
        SyntaxKind::create_mv_target => Some(802),
        SyntaxKind::opt_reloptions => Some(803),
        SyntaxKind::OptSeqOptList => Some(804),
        SyntaxKind::SeqOptList => Some(805),
        SyntaxKind::SimpleTypename => Some(806),
        SyntaxKind::opt_by => Some(807),
        SyntaxKind::NumericOnly_list => Some(808),
        SyntaxKind::opt_or_replace => Some(809),
        SyntaxKind::opt_trusted => Some(810),
        SyntaxKind::opt_procedural => Some(811),
        SyntaxKind::handler_name => Some(812),
        SyntaxKind::opt_inline_handler => Some(813),
        SyntaxKind::opt_validator => Some(814),
        SyntaxKind::attrs => Some(815),
        SyntaxKind::validator_clause => Some(816),
        SyntaxKind::OptTableSpaceOwner => Some(817),
        SyntaxKind::create_extension_opt_list => Some(818),
        SyntaxKind::create_extension_opt_item => Some(819),
        SyntaxKind::alter_extension_opt_list => Some(820),
        SyntaxKind::alter_extension_opt_item => Some(821),
        SyntaxKind::object_type_name => Some(822),
        SyntaxKind::object_type_any_name => Some(823),
        SyntaxKind::aggregate_with_argtypes => Some(824),
        SyntaxKind::function_with_argtypes => Some(825),
        SyntaxKind::operator_with_argtypes => Some(826),
        SyntaxKind::opt_fdw_options => Some(827),
        SyntaxKind::fdw_option => Some(828),
        SyntaxKind::fdw_options => Some(829),
        SyntaxKind::generic_option_list => Some(830),
        SyntaxKind::generic_option_elem => Some(831),
        _ => code_from_832(kind),
    }
}

/// The number of a kind from `opt_drop_behavior` on; none for a kind before it.
fn code_from_704(kind: SyntaxKind) -> (c: Option<u32>)
    ensures
        match c {
            Some(c) => 704 <= c < KIND_COUNT && spec_kind_from_704(c) == kind,
            None => kind_before_704(kind),
        },
{
    match kind {
        SyntaxKind::opt_drop_behavior => Some(704),
        SyntaxKind::opt_set_data => Some(705),
        SyntaxKind::opt_collate_clause => Some(706),
        SyntaxKind::alter_using => Some(707),
        SyntaxKind::alter_generic_options => Some(708),
        SyntaxKind::TableConstraint => Some(709),
        SyntaxKind::ConstraintAttributeSpec => Some(710),
        SyntaxKind::replica_identity => Some(711),
        SyntaxKind::a_expr => Some(712),
        SyntaxKind::reloption_list => Some(713),
        SyntaxKind::reloption_elem => Some(714),
        SyntaxKind::ColLabel => Some(715),
        SyntaxKind::def_arg => Some(716),
        SyntaxKind::alter_identity_column_option => Some(717),
        SyntaxKind::SeqOptElem => Some(718),
        SyntaxKind::hash_partbound => Some(719),
        SyntaxKind::expr_list => Some(720),
        SyntaxKind::hash_partbound_elem => Some(721),
        SyntaxKind::alter_type_cmds => Some(722),
        SyntaxKind::alter_type_cmd => Some(723),
        SyntaxKind::TableFuncElement => Some(724),
        SyntaxKind::cursor_name => Some(725),
        SyntaxKind::opt_binary => Some(726),
        SyntaxKind::opt_column_list => Some(727),
        SyntaxKind::copy_from => Some(728),
        SyntaxKind::opt_program => Some(729),
        SyntaxKind::copy_file_name => Some(730),
        SyntaxKind::copy_delimiter => Some(731),
        SyntaxKind::copy_options => Some(732),
        SyntaxKind::where_clause => Some(733),
        SyntaxKind::PreparableStmt => Some(734),
        SyntaxKind::copy_opt_list => Some(735),
        SyntaxKind::copy_generic_opt_list => Some(736),
        SyntaxKind::copy_opt_item => Some(737),
        SyntaxKind::opt_as => Some(738),
        SyntaxKind::columnList => Some(739),
        SyntaxKind::opt_using => Some(740),
        SyntaxKind::copy_generic_opt_elem => Some(741),
        SyntaxKind::copy_generic_opt_arg => Some(742),
        SyntaxKind::copy_generic_opt_arg_list => Some(743),
        SyntaxKind::copy_generic_opt_arg_list_item => Some(744),
        SyntaxKind::OptTemp => Some(745),
        SyntaxKind::OptTableElementList => Some(746),
        SyntaxKind::OptInherit => Some(747),
        SyntaxKind::OptPartitionSpec => Some(748),
        SyntaxKind::table_access_method_clause => Some(749),
        SyntaxKind::OptWith => Some(750),
        SyntaxKind::OnCommitOption => Some(751),
        SyntaxKind::OptTableSpace => Some(752),
        SyntaxKind::OptTypedTableElementList => Some(753),
        SyntaxKind::TableElementList => Some(754),
        SyntaxKind::TypedTableElementList => Some(755),
        SyntaxKind::TableElement => Some(756),
        SyntaxKind::TypedTableElement => Some(757),
        SyntaxKind::TableLikeClause => Some(758),
        SyntaxKind::columnOptions => Some(759),
        SyntaxKind::opt_column_storage => Some(760),
        SyntaxKind::opt_column_compression => Some(761),
        SyntaxKind::create_generic_options => Some(762),
        SyntaxKind::ColQualList => Some(763),
        SyntaxKind::ColConstraint => Some(764),
        SyntaxKind::ColConstraintElem => Some(765),
        SyntaxKind::ConstraintAttr => Some(766),
        SyntaxKind::opt_unique_null_treatment => Some(767),
        _ => code_from_768(kind),
    }
}

/// The number of a kind from `VariableResetStmt` on; none for a kind before it.
fn code_from_640(kind: SyntaxKind) -> (c: Option<u32>)
    ensures
        match c {
            Some(c) => 640 <= c < KIND_COUNT && spec_kind_from_640(c) == kind,
            None => kind_before_640(kind),
        },
{
    match kind {
        SyntaxKind::VariableResetStmt => Some(640),
        SyntaxKind::VariableSetStmt => Some(641),
        SyntaxKind::VariableShowStmt => Some(642),
        SyntaxKind::ViewStmt => Some(643),
        SyntaxKind::ColId => Some(644),
        SyntaxKind::any_name => Some(645),
        SyntaxKind::func_application => Some(646),
        SyntaxKind::RoleId => Some(647),
        SyntaxKind::opt_with => Some(648),
        SyntaxKind::OptRoleList => Some(649),
        SyntaxKind::CreateOptRoleElem => Some(650),
        SyntaxKind::AlterOptRoleList => Some(651),
        SyntaxKind::AlterOptRoleElem => Some(652),
        SyntaxKind::Sconst => Some(653),
        SyntaxKind::SignedIconst => Some(654),
        SyntaxKind::role_list => Some(655),
        SyntaxKind::Iconst => Some(656),
        SyntaxKind::RoleSpec => Some(657),
        SyntaxKind::name => Some(658),
        SyntaxKind::opt_in_database => Some(659),
        SyntaxKind::SetResetClause => Some(660),
        SyntaxKind::add_drop => Some(661),
        SyntaxKind::opt_single_name => Some(662),
        SyntaxKind::OptSchemaEltList => Some(663),
        SyntaxKind::schema_stmt => Some(664),
        SyntaxKind::set_rest => Some(665),
        SyntaxKind::transaction_mode_list => Some(666),
        SyntaxKind::set_rest_more => Some(667),
        SyntaxKind::var_name => Some(668),
        SyntaxKind::var_list => Some(669),
        SyntaxKind::generic_set => Some(670),
        SyntaxKind::zone_value => Some(671),
        SyntaxKind::opt_encoding => Some(672),
        SyntaxKind::NonReservedWord_or_Sconst => Some(673),
        SyntaxKind::document_or_content => Some(674),
        SyntaxKind::var_value => Some(675),
        SyntaxKind::opt_boolean_or_string => Some(676),
        SyntaxKind::NumericOnly => Some(677),
        SyntaxKind::ConstInterval => Some(678),
        SyntaxKind::opt_interval => Some(679),
        SyntaxKind::NonReservedWord => Some(680),
        SyntaxKind::reset_rest => Some(681),
        SyntaxKind::generic_reset => Some(682),
        SyntaxKind::constraints_set_list => Some(683),
        SyntaxKind::constraints_set_mode => Some(684),
        SyntaxKind::qualified_name_list => Some(685),
        SyntaxKind::relation_expr => Some(686),
        SyntaxKind::alter_table_cmds => Some(687),
        SyntaxKind::partition_cmd => Some(688),
        SyntaxKind::opt_nowait => Some(689),
        SyntaxKind::qualified_name => Some(690),
        SyntaxKind::index_partition_cmd => Some(691),
        SyntaxKind::alter_table_cmd => Some(692),
        SyntaxKind::PartitionBoundSpec => Some(693),
        SyntaxKind::opt_concurrently => Some(694),
        SyntaxKind::columnDef => Some(695),
        SyntaxKind::opt_column => Some(696),
        SyntaxKind::alter_column_default => Some(697),
        SyntaxKind::reloptions => Some(698),
        SyntaxKind::column_storage => Some(699),
        SyntaxKind::column_compression => Some(700),
        SyntaxKind::generated_when => Some(701),
        SyntaxKind::OptParenthesizedSeqOptList => Some(702),
        SyntaxKind::alter_identity_column_option_list => Some(703),
        _ => code_from_704(kind),
    }
}

/// The number of a kind from `AlterOpFamilyStmt` on; none for a kind before it.
fn code_from_576(kind: SyntaxKind) -> (c: Option<u32>)
    ensures
        match c {
            Some(c) => 576 <= c < KIND_COUNT && spec_kind_from_576(c) == kind,
            None => kind_before_576(kind),
        },
{
    match kind {
        SyntaxKind::AlterOpFamilyStmt => Some(576),
        SyntaxKind::CreatePolicyStmt => Some(577),
        SyntaxKind::CreatePLangStmt => Some(578),
        SyntaxKind::CreateSchemaStmt => Some(579),
        SyntaxKind::CreateSeqStmt => Some(580),
        SyntaxKind::CreateStmt => Some(581),
        SyntaxKind::CreateSubscriptionStmt => Some(582),
        SyntaxKind::CreateStatsStmt => Some(583),
        SyntaxKind::CreateTableSpaceStmt => Some(584),
        SyntaxKind::CreateTransformStmt => Some(585),
        SyntaxKind::CreateTrigStmt => Some(586),
        SyntaxKind::CreateEventTrigStmt => Some(587),
        SyntaxKind::CreateRoleStmt => Some(588),
        SyntaxKind::CreateUserStmt => Some(589),
        SyntaxKind::CreateUserMappingStmt => Some(590),
        SyntaxKind::CreatedbStmt => Some(591),
        SyntaxKind::DeallocateStmt => Some(592),
        SyntaxKind::DeclareCursorStmt => Some(593),
        SyntaxKind::DefineStmt => Some(594),
        SyntaxKind::DeleteStmt => Some(595),
        SyntaxKind::DiscardStmt => Some(596),
        SyntaxKind::DoStmt => Some(597),
        SyntaxKind::DropCastStmt => Some(598),
        SyntaxKind::DropOpClassStmt => Some(599),
        SyntaxKind::DropOpFamilyStmt => Some(600),
        SyntaxKind::DropOwnedStmt => Some(601),
        SyntaxKind::DropStmt => Some(602),
        SyntaxKind::DropSubscriptionStmt => Some(603),
        SyntaxKind::DropTableSpaceStmt => Some(604),
        SyntaxKind::DropTransformStmt => Some(605),
        SyntaxKind::DropRoleStmt => Some(606),
        SyntaxKind::DropUserMappingStmt => Some(607),
        SyntaxKind::DropdbStmt => Some(608),
        SyntaxKind::ExecuteStmt => Some(609),
        SyntaxKind::ExplainStmt => Some(610),
        SyntaxKind::FetchStmt => Some(611),
        SyntaxKind::GrantStmt => Some(612),
        SyntaxKind::GrantRoleStmt => Some(613),
        SyntaxKind::ImportForeignSchemaStmt => Some(614),
        SyntaxKind::IndexStmt => Some(615),
        SyntaxKind::InsertStmt => Some(616),
        SyntaxKind::ListenStmt => Some(617),
        SyntaxKind::RefreshMatViewStmt => Some(618),
        SyntaxKind::LoadStmt => Some(619),
        SyntaxKind::LockStmt => Some(620),
        SyntaxKind::MergeStmt => Some(621),
        SyntaxKind::NotifyStmt => Some(622),
        SyntaxKind::PrepareStmt => Some(623),
        SyntaxKind::ReassignOwnedStmt => Some(624),
        SyntaxKind::ReindexStmt => Some(625),
        SyntaxKind::RemoveAggrStmt => Some(626),
        SyntaxKind::RemoveFuncStmt => Some(627),
        SyntaxKind::RemoveOperStmt => Some(628),
        SyntaxKind::RenameStmt => Some(629),
        SyntaxKind::RevokeStmt => Some(630),
        SyntaxKind::RevokeRoleStmt => Some(631),
        SyntaxKind::RuleStmt => Some(632),
        SyntaxKind::SecLabelStmt => Some(633),
        SyntaxKind::SelectStmt => Some(634),
        SyntaxKind::TransactionStmt => Some(635),
        SyntaxKind::TruncateStmt => Some(636),
        SyntaxKind::UnlistenStmt => Some(637),
        SyntaxKind::UpdateStmt => Some(638),
        SyntaxKind::VacuumStmt => Some(639),
        _ => code_from_640(kind),
    }
}

/// The number of a kind from `Dollarend` on; none for a kind before it.
fn code_from_512(kind: SyntaxKind) -> (c: Option<u32>)
    ensures
        match c {
            Some(c) => 512 <= c < KIND_COUNT && spec_kind_from_512(c) == kind,
            None => kind_before_512(kind),
        },
{
    match kind {
        SyntaxKind::Dollarend => Some(512),
        SyntaxKind::stmtmulti => Some(513),
        SyntaxKind::Typename => Some(514),
        SyntaxKind::PLpgSQL_Expr => Some(515),
        SyntaxKind::PLAssignStmt => Some(516),
        SyntaxKind::toplevel_stmt => Some(517),
        SyntaxKind::stmt => Some(518),
        SyntaxKind::TransactionStmtLegacy => Some(519),
        SyntaxKind::AlterEventTrigStmt => Some(520),
        SyntaxKind::AlterCollationStmt => Some(521),
        SyntaxKind::AlterDatabaseStmt => Some(522),
        SyntaxKind::AlterDatabaseSetStmt => Some(523),
        SyntaxKind::AlterDefaultPrivilegesStmt => Some(524),
        SyntaxKind::AlterDomainStmt => Some(525),
        SyntaxKind::AlterEnumStmt => Some(526),
        SyntaxKind::AlterExtensionStmt => Some(527),
        SyntaxKind::AlterExtensionContentsStmt => Some(528),
        SyntaxKind::AlterFdwStmt => Some(529),
        SyntaxKind::AlterForeignServerStmt => Some(530),
        SyntaxKind::AlterFunctionStmt => Some(531),
        SyntaxKind::AlterGroupStmt => Some(532),
        SyntaxKind::AlterObjectDependsStmt => Some(533),
        SyntaxKind::AlterObjectSchemaStmt => Some(534),
        SyntaxKind::AlterOwnerStmt => Some(535),
        SyntaxKind::AlterOperatorStmt => Some(536),
        SyntaxKind::AlterTypeStmt => Some(537),
        SyntaxKind::AlterPolicyStmt => Some(538),
        SyntaxKind::AlterSeqStmt => Some(539),
        SyntaxKind::AlterSystemStmt => Some(540),
        SyntaxKind::AlterTableStmt => Some(541),
        SyntaxKind::AlterTblSpcStmt => Some(542),
        SyntaxKind::AlterCompositeTypeStmt => Some(543),
        SyntaxKind::AlterPublicationStmt => Some(544),
        SyntaxKind::AlterRoleSetStmt => Some(545),
        SyntaxKind::AlterRoleStmt => Some(546),
        SyntaxKind::AlterSubscriptionStmt => Some(547),
        SyntaxKind::AlterStatsStmt => Some(548),
        SyntaxKind::AlterTSConfigurationStmt => Some(549),
        SyntaxKind::AlterTSDictionaryStmt => Some(550),
        SyntaxKind::AlterUserMappingStmt => Some(551),
        SyntaxKind::AnalyzeStmt => Some(552),
        SyntaxKind::CallStmt => Some(553),
        SyntaxKind::CheckPointStmt => Some(554),
        SyntaxKind::ClosePortalStmt => Some(555),
        SyntaxKind::ClusterStmt => Some(556),
        SyntaxKind::CommentStmt => Some(557),
        SyntaxKind::ConstraintsSetStmt => Some(558),
        SyntaxKind::CopyStmt => Some(559),
        SyntaxKind::CreateAmStmt => Some(560),
        SyntaxKind::CreateAsStmt => Some(561),
        SyntaxKind::CreateAssertionStmt => Some(562),
        SyntaxKind::CreateCastStmt => Some(563),
        SyntaxKind::CreateConversionStmt => Some(564),
        SyntaxKind::CreateDomainStmt => Some(565),
        SyntaxKind::CreateExtensionStmt => Some(566),
        SyntaxKind::CreateFdwStmt => Some(567),
        SyntaxKind::CreateForeignServerStmt => Some(568),
        SyntaxKind::CreateForeignTableStmt => Some(569),
        SyntaxKind::CreateFunctionStmt => Some(570),
        SyntaxKind::CreateGroupStmt => Some(571),
        SyntaxKind::CreateMatViewStmt => Some(572),
        SyntaxKind::CreateOpClassStmt => Some(573),
        SyntaxKind::CreateOpFamilyStmt => Some(574),
        SyntaxKind::CreatePublicationStmt => Some(575),
        _ => code_from_576(kind),
    }
}

/// The number of a kind from `SUBSTRING` on; none for a kind before it.
fn code_from_448(kind: SyntaxKind) -> (c: Option<u32>)
    ensures
        match c {
            Some(c) => 448 <= c < KIND_COUNT && spec_kind_from_448(c) == kind,
            None => kind_before_448(kind),
        },
{
    match kind {
        SyntaxKind::SUBSTRING => Some(448),
        SyntaxKind::TREAT => Some(449),
        SyntaxKind::TRIM => Some(450),
        SyntaxKind::BOTH => Some(451),
        SyntaxKind::LEADING => Some(452),
        SyntaxKind::TRAILING => Some(453),
        SyntaxKind::NULLIF => Some(454),
        SyntaxKind::COALESCE => Some(455),
        SyntaxKind::GREATEST => Some(456),
        SyntaxKind::LEAST => Some(457),
        SyntaxKind::XMLCONCAT => Some(458),
        SyntaxKind::XMLELEMENT => Some(459),
        SyntaxKind::XMLEXISTS => Some(460),
        SyntaxKind::XMLFOREST => Some(461),
        SyntaxKind::XMLPARSE => Some(462),
        SyntaxKind::XMLPI => Some(463),
        SyntaxKind::XMLROOT => Some(464),
        SyntaxKind::XMLSERIALIZE => Some(465),
        SyntaxKind::JSON_OBJECT => Some(466),
        SyntaxKind::JSON_ARRAY => Some(467),
        SyntaxKind::STANDALONE_P => Some(468),
        SyntaxKind::YES_P => Some(469),
        SyntaxKind::XMLATTRIBUTES => Some(470),
        SyntaxKind::CONTENT_P => Some(471),
        SyntaxKind::INDENT => Some(472),
        SyntaxKind::WHITESPACE_P => Some(473),
        SyntaxKind::STRIP_P => Some(474),
        SyntaxKind::PASSING => Some(475),
        SyntaxKind::REF_P => Some(476),
        SyntaxKind::WITHIN => Some(477),
        SyntaxKind::FILTER => Some(478),
        SyntaxKind::OVER => Some(479),
        SyntaxKind::GROUPS => Some(480),
        SyntaxKind::UNBOUNDED => Some(481),
        SyntaxKind::PRECEDING => Some(482),
        SyntaxKind::FOLLOWING => Some(483),
        SyntaxKind::OTHERS => Some(484),
        SyntaxKind::ANY => Some(485),
        SyntaxKind::SOME => Some(486),
        SyntaxKind::Op => Some(487),
        SyntaxKind::COLON_EQUALS => Some(488),
        SyntaxKind::EQUALS_GREATER => Some(489),
        SyntaxKind::NFC => Some(490),
        SyntaxKind::NFD => Some(491),
        SyntaxKind::NFKC => Some(492),
        SyntaxKind::NFKD => Some(493),
        SyntaxKind::PLACING => Some(494),
        SyntaxKind::CASE => Some(495),
        SyntaxKind::ELSE => Some(496),
        SyntaxKind::Colon => Some(497),
        SyntaxKind::ASYMMETRIC => Some(498),
        SyntaxKind::JSON => Some(499),
        SyntaxKind::SCALAR => Some(500),
        SyntaxKind::KEYS => Some(501),
        SyntaxKind::ABSENT => Some(502),
        SyntaxKind::JSON_OBJECTAGG => Some(503),
        SyntaxKind::JSON_ARRAYAGG => Some(504),
        SyntaxKind::BCONST => Some(505),
        SyntaxKind::XCONST => Some(506),
        SyntaxKind::ICONST => Some(507),
        SyntaxKind::FORMAT => Some(508),
        SyntaxKind::OFF => Some(509),
        SyntaxKind::UESCAPE => Some(510),
        SyntaxKind::VIEWS => Some(511),
        _ => code_from_512(kind),
    }
}

/// The number of a kind from `LBracket` on; none for a kind before it.
fn code_from_384(kind: SyntaxKind) -> (c: Option<u32>)
    ensures
        match c {
            Some(c) => 384 <= c < KIND_COUNT && spec_kind_from_384(c) == kind,
            None => kind_before_384(kind),
        },
{
    match kind {
        SyntaxKind::LBracket => Some(384),
        SyntaxKind::RBracket => Some(385),
        SyntaxKind::INT_P => Some(386),
        SyntaxKind::INTEGER => Some(387),
        SyntaxKind::SMALLINT => Some(388),
        SyntaxKind::BIGINT => Some(389),
        SyntaxKind::REAL => Some(390),
        SyntaxKind::FLOAT_P => Some(391),
        SyntaxKind::DOUBLE_P => Some(392),
        SyntaxKind::PRECISION => Some(393),
        SyntaxKind::DECIMAL_P => Some(394),
        SyntaxKind::DEC => Some(395),
        SyntaxKind::NUMERIC => Some(396),
        SyntaxKind::BOOLEAN_P => Some(397),
        SyntaxKind::BIT => Some(398),
        SyntaxKind::CHARACTER => Some(399),
        SyntaxKind::CHAR_P => Some(400),
        SyntaxKind::VARCHAR => Some(401),
        SyntaxKind::NATIONAL => Some(402),
        SyntaxKind::NCHAR => Some(403),
        SyntaxKind::VARYING => Some(404),
        SyntaxKind::TIMESTAMP => Some(405),
        SyntaxKind::INTERVAL => Some(406),
        SyntaxKind::WITHOUT_LA => Some(407),
        SyntaxKind::YEAR_P => Some(408),
        SyntaxKind::MONTH_P => Some(409),
        SyntaxKind::DAY_P => Some(410),
        SyntaxKind::HOUR_P => Some(411),
        SyntaxKind::MINUTE_P => Some(412),
        SyntaxKind::SECOND_P => Some(413),
        SyntaxKind::TYPECAST => Some(414),
        SyntaxKind::AT => Some(415),
        SyntaxKind::Slash => Some(416),
        SyntaxKind::Caret => Some(417),
        SyntaxKind::Less => Some(418),
        SyntaxKind::Greater => Some(419),
        SyntaxKind::LESS_EQUALS => Some(420),
        SyntaxKind::GREATER_EQUALS => Some(421),
        SyntaxKind::NOT_EQUALS => Some(422),
        SyntaxKind::NOT_LA => Some(423),
        SyntaxKind::ILIKE => Some(424),
        SyntaxKind::SIMILAR => Some(425),
        SyntaxKind::ISNULL => Some(426),
        SyntaxKind::NOTNULL => Some(427),
        SyntaxKind::OVERLAPS => Some(428),
        SyntaxKind::UNKNOWN => Some(429),
        SyntaxKind::BETWEEN => Some(430),
        SyntaxKind::SYMMETRIC => Some(431),
        SyntaxKind::DOCUMENT_P => Some(432),
        SyntaxKind::NORMALIZED => Some(433),
        SyntaxKind::CURRENT_DATE => Some(434),
        SyntaxKind::CURRENT_TIME => Some(435),
        SyntaxKind::CURRENT_TIMESTAMP => Some(436),
        SyntaxKind::LOCALTIME => Some(437),
        SyntaxKind::LOCALTIMESTAMP => Some(438),
        SyntaxKind::CURRENT_ROLE => Some(439),
        SyntaxKind::CURRENT_USER => Some(440),
        SyntaxKind::SESSION_USER => Some(441),
        SyntaxKind::SYSTEM_USER => Some(442),
        SyntaxKind::CURRENT_CATALOG => Some(443),
        SyntaxKind::EXTRACT => Some(444),
        SyntaxKind::NORMALIZE => Some(445),
        SyntaxKind::OVERLAY => Some(446),
        SyntaxKind::POSITION => Some(447),
        _ => code_from_448(kind),
    }
}

/// The number of a kind from `UNLISTEN` on; none for a kind before it.
fn code_from_320(kind: SyntaxKind) -> (c: Option<u32>)
    ensures
        match c {
            Some(c) => 320 <= c < KIND_COUNT && spec_kind_from_320(c) == kind,
            None => kind_before_320(kind),
        },
{
    match kind {
        SyntaxKind::UNLISTEN => Some(320),
        SyntaxKind::ABORT_P => Some(321),
        SyntaxKind::ROLLBACK => Some(322),
        SyntaxKind::SAVEPOINT => Some(323),
        SyntaxKind::RELEASE => Some(324),
        SyntaxKind::PREPARE => Some(325),
        SyntaxKind::PREPARED => Some(326),
        SyntaxKind::WORK => Some(327),
        SyntaxKind::ONLY => Some(328),
        SyntaxKind::WRITE => Some(329),
        SyntaxKind::CHAIN => Some(330),
        SyntaxKind::RECURSIVE => Some(331),
        SyntaxKind::CASCADED => Some(332),
        SyntaxKind::LOAD => Some(333),
        SyntaxKind::VACUUM => Some(334),
        SyntaxKind::ANALYZE => Some(335),
        SyntaxKind::ANALYSE => Some(336),
        SyntaxKind::FORMAT_LA => Some(337),
        SyntaxKind::VERBOSE => Some(338),
        SyntaxKind::EXPLAIN => Some(339),
        SyntaxKind::DEALLOCATE => Some(340),
        SyntaxKind::OVERRIDING => Some(341),
        SyntaxKind::CONFLICT => Some(342),
        SyntaxKind::RETURNING => Some(343),
        SyntaxKind::LOCK_P => Some(344),
        SyntaxKind::MODE => Some(345),
        SyntaxKind::SHARE => Some(346),
        SyntaxKind::EXCLUSIVE => Some(347),
        SyntaxKind::NOWAIT => Some(348),
        SyntaxKind::LOCKED => Some(349),
        SyntaxKind::MERGE => Some(350),
        SyntaxKind::MATCHED => Some(351),
        SyntaxKind::THEN => Some(352),
        SyntaxKind::DECLARE => Some(353),
        SyntaxKind::CURSOR => Some(354),
        SyntaxKind::SCROLL => Some(355),
        SyntaxKind::ASENSITIVE => Some(356),
        SyntaxKind::INSENSITIVE => Some(357),
        SyntaxKind::HOLD => Some(358),
        SyntaxKind::UNION => Some(359),
        SyntaxKind::INTERSECT => Some(360),
        SyntaxKind::DEPTH => Some(361),
        SyntaxKind::BREADTH => Some(362),
        SyntaxKind::TIES => Some(363),
        SyntaxKind::OFFSET => Some(364),
        SyntaxKind::ROLLUP => Some(365),
        SyntaxKind::CUBE => Some(366),
        SyntaxKind::GROUPING => Some(367),
        SyntaxKind::SETS => Some(368),
        SyntaxKind::HAVING => Some(369),
        SyntaxKind::LATERAL_P => Some(370),
        SyntaxKind::CROSS => Some(371),
        SyntaxKind::JOIN => Some(372),
        SyntaxKind::NATURAL => Some(373),
        SyntaxKind::LEFT => Some(374),
        SyntaxKind::RIGHT => Some(375),
        SyntaxKind::INNER_P => Some(376),
        SyntaxKind::OUTER_P => Some(377),
        SyntaxKind::TABLESAMPLE => Some(378),
        SyntaxKind::ORDINALITY => Some(379),
        SyntaxKind::XMLTABLE => Some(380),
        SyntaxKind::COLUMNS => Some(381),
        SyntaxKind::XMLNAMESPACES => Some(382),
        SyntaxKind::ARRAY => Some(383),
        _ => code_from_384(kind),
    }
}

/// The number of a kind from `LARGE_P` on; none for a kind before it.
fn code_from_256(kind: SyntaxKind) -> (c: Option<u32>)
    ensures
        match c {
            Some(c) => 256 <= c < KIND_COUNT && spec_kind_from_256(c) == kind,
            None => kind_before_256(kind),
        },
{
    match kind {
        SyntaxKind::LARGE_P => Some(256),
        SyntaxKind::OBJECT_P => Some(257),
        SyntaxKind::LABEL => Some(258),
        SyntaxKind::FETCH => Some(259),
        SyntaxKind::MOVE => Some(260),
        SyntaxKind::NEXT => Some(261),
        SyntaxKind::PRIOR => Some(262),
        SyntaxKind::FIRST_P => Some(263),
        SyntaxKind::LAST_P => Some(264),
        SyntaxKind::ABSOLUTE_P => Some(265),
        SyntaxKind::RELATIVE_P => Some(266),
        SyntaxKind::FORWARD => Some(267),
        SyntaxKind::BACKWARD => Some(268),
        SyntaxKind::GRANT => Some(269),
        SyntaxKind::REVOKE => Some(270),
        SyntaxKind::PRIVILEGES => Some(271),
        SyntaxKind::SYSTEM_P => Some(272),
        SyntaxKind::PARAMETER => Some(273),
        SyntaxKind::TABLES => Some(274),
        SyntaxKind::FUNCTIONS => Some(275),
        SyntaxKind::PROCEDURES => Some(276),
        SyntaxKind::ROUTINES => Some(277),
        SyntaxKind::GRANTED => Some(278),
        SyntaxKind::TYPES_P => Some(279),
        SyntaxKind::SCHEMAS => Some(280),
        SyntaxKind::ASC => Some(281),
        SyntaxKind::DESC => Some(282),
        SyntaxKind::NULLS_LA => Some(283),
        SyntaxKind::RETURNS => Some(284),
        SyntaxKind::REPLACE => Some(285),
        SyntaxKind::OUT_P => Some(286),
        SyntaxKind::INOUT => Some(287),
        SyntaxKind::VARIADIC => Some(288),
        SyntaxKind::Percent => Some(289),
        SyntaxKind::SETOF => Some(290),
        SyntaxKind::CALLED => Some(291),
        SyntaxKind::INPUT_P => Some(292),
        SyntaxKind::STRICT_P => Some(293),
        SyntaxKind::IMMUTABLE => Some(294),
        SyntaxKind::STABLE => Some(295),
        SyntaxKind::VOLATILE => Some(296),
        SyntaxKind::EXTERNAL => Some(297),
        SyntaxKind::DEFINER => Some(298),
        SyntaxKind::INVOKER => Some(299),
        SyntaxKind::LEAKPROOF => Some(300),
        SyntaxKind::COST => Some(301),
        SyntaxKind::SUPPORT => Some(302),
        SyntaxKind::PARALLEL => Some(303),
        SyntaxKind::WINDOW => Some(304),
        SyntaxKind::RETURN => Some(305),
        SyntaxKind::BEGIN_P => Some(306),
        SyntaxKind::ATOMIC => Some(307),
        SyntaxKind::END_P => Some(308),
        SyntaxKind::DO => Some(309),
        SyntaxKind::IMPLICIT_P => Some(310),
        SyntaxKind::ASSIGNMENT => Some(311),
        SyntaxKind::SQL_P => Some(312),
        SyntaxKind::REINDEX => Some(313),
        SyntaxKind::DEPENDS => Some(314),
        SyntaxKind::CURRENT_SCHEMA => Some(315),
        SyntaxKind::SKIP => Some(316),
        SyntaxKind::ALSO => Some(317),
        SyntaxKind::NOTIFY => Some(318),
        SyntaxKind::LISTEN => Some(319),
        _ => code_from_320(kind),
    }
}

/// The number of a kind from `LANGUAGE` on; none for a kind before it.
fn code_from_192(kind: SyntaxKind) -> (c: Option<u32>)
    ensures
        match c {
            Some(c) => 192 <= c < KIND_COUNT && spec_kind_from_192(c) == kind,
            None => kind_before_192(kind),
        },
{
    match kind {
        SyntaxKind::LANGUAGE => Some(192),
        SyntaxKind::HANDLER => Some(193),
        SyntaxKind::TRUSTED => Some(194),
        SyntaxKind::INLINE_P => Some(195),
        SyntaxKind::VALIDATOR => Some(196),
        SyntaxKind::PROCEDURAL => Some(197),
        SyntaxKind::LOCATION => Some(198),
        SyntaxKind::EXTENSION => Some(199),
        SyntaxKind::VERSION_P => Some(200),
        SyntaxKind::AGGREGATE => Some(201),
        SyntaxKind::CAST => Some(202),
        SyntaxKind::DOMAIN_P => Some(203),
        SyntaxKind::FUNCTION => Some(204),
        SyntaxKind::CLASS => Some(205),
        SyntaxKind::FAMILY => Some(206),
        SyntaxKind::PROCEDURE => Some(207),
        SyntaxKind::ROUTINE => Some(208),
        SyntaxKind::TRANSFORM => Some(209),
        SyntaxKind::WRAPPER => Some(210),
        SyntaxKind::SERVER => Some(211),
        SyntaxKind::IMPORT_P => Some(212),
        SyntaxKind::INTO => Some(213),
        SyntaxKind::EXCEPT => Some(214),
        SyntaxKind::MAPPING => Some(215),
        SyntaxKind::POLICY => Some(216),
        SyntaxKind::SELECT => Some(217),
        SyntaxKind::INSERT => Some(218),
        SyntaxKind::EXECUTE => Some(219),
        SyntaxKind::AFTER => Some(220),
        SyntaxKind::EACH => Some(221),
        SyntaxKind::BEFORE => Some(222),
        SyntaxKind::INSTEAD => Some(223),
        SyntaxKind::OR => Some(224),
        SyntaxKind::TRUNCATE => Some(225),
        SyntaxKind::REFERENCING => Some(226),
        SyntaxKind::NEW => Some(227),
        SyntaxKind::OLD => Some(228),
        SyntaxKind::STATEMENT => Some(229),
        SyntaxKind::WHEN => Some(230),
        SyntaxKind::EVENT => Some(231),
        SyntaxKind::AND => Some(232),
        SyntaxKind::SCONST => Some(233),
        SyntaxKind::ASSERTION => Some(234),
        SyntaxKind::ENUM_P => Some(235),
        SyntaxKind::RANGE => Some(236),
        SyntaxKind::TEXT_P => Some(237),
        SyntaxKind::SEARCH => Some(238),
        SyntaxKind::PARSER => Some(239),
        SyntaxKind::DICTIONARY => Some(240),
        SyntaxKind::TEMPLATE => Some(241),
        SyntaxKind::CONFIGURATION => Some(242),
        SyntaxKind::COLLATION => Some(243),
        SyntaxKind::NONE => Some(244),
        SyntaxKind::VALUE_P => Some(245),
        SyntaxKind::RENAME => Some(246),
        SyntaxKind::ORDER => Some(247),
        SyntaxKind::RECHECK => Some(248),
        SyntaxKind::REASSIGN => Some(249),
        SyntaxKind::CONVERSION_P => Some(250),
        SyntaxKind::SUBSCRIPTION => Some(251),
        SyntaxKind::PUBLICATION => Some(252),
        SyntaxKind::CONTINUE_P => Some(253),
        SyntaxKind::COMMENT => Some(254),
        SyntaxKind::IS => Some(255),
        _ => code_from_256(kind),
    }
}

/// The number of a kind from `FOR` on; none for a kind before it.
fn code_from_128(kind: SyntaxKind) -> (c: Option<u32>)
    ensures
        match c {
            Some(c) => 128 <= c < KIND_COUNT && spec_kind_from_128(c) == kind,
            None => kind_before_128(kind),
        },
{
    match kind {
        SyntaxKind::FOR => Some(128),
        SyntaxKind::VALUES => Some(129),
        SyntaxKind::ATTRIBUTE => Some(130),
        SyntaxKind::CLOSE => Some(131),
        SyntaxKind::COPY => Some(132),
        SyntaxKind::PROGRAM => Some(133),
        SyntaxKind::STDIN => Some(134),
        SyntaxKind::STDOUT => Some(135),
        SyntaxKind::BINARY => Some(136),
        SyntaxKind::FREEZE => Some(137),
        SyntaxKind::DELIMITER => Some(138),
        SyntaxKind::CSV => Some(139),
        SyntaxKind::HEADER_P => Some(140),
        SyntaxKind::QUOTE => Some(141),
        SyntaxKind::ESCAPE => Some(142),
        SyntaxKind::Star => Some(143),
        SyntaxKind::ENCODING => Some(144),
        SyntaxKind::DELIMITERS => Some(145),
        SyntaxKind::GLOBAL => Some(146),
        SyntaxKind::OPTIONS => Some(147),
        SyntaxKind::COMPRESSION => Some(148),
        SyntaxKind::STORAGE => Some(149),
        SyntaxKind::UNIQUE => Some(150),
        SyntaxKind::PRIMARY => Some(151),
        SyntaxKind::KEY => Some(152),
        SyntaxKind::CHECK => Some(153),
        SyntaxKind::STORED => Some(154),
        SyntaxKind::REFERENCES => Some(155),
        SyntaxKind::NULLS_P => Some(156),
        SyntaxKind::DISTINCT => Some(157),
        SyntaxKind::DEFERRABLE => Some(158),
        SyntaxKind::INITIALLY => Some(159),
        SyntaxKind::LIKE => Some(160),
        SyntaxKind::INCLUDING => Some(161),
        SyntaxKind::EXCLUDING => Some(162),
        SyntaxKind::COMMENTS => Some(163),
        SyntaxKind::DEFAULTS => Some(164),
        SyntaxKind::INDEXES => Some(165),
        SyntaxKind::EXCLUDE => Some(166),
        SyntaxKind::INCLUDE => Some(167),
        SyntaxKind::MATCH => Some(168),
        SyntaxKind::PARTIAL => Some(169),
        SyntaxKind::SIMPLE => Some(170),
        SyntaxKind::OPERATOR => Some(171),
        SyntaxKind::WHERE => Some(172),
        SyntaxKind::UPDATE => Some(173),
        SyntaxKind::DELETE_P => Some(174),
        SyntaxKind::ACTION => Some(175),
        SyntaxKind::INHERITS => Some(176),
        SyntaxKind::COMMIT => Some(177),
        SyntaxKind::ROWS => Some(178),
        SyntaxKind::PRESERVE => Some(179),
        SyntaxKind::DATA_P => Some(180),
        SyntaxKind::REFRESH => Some(181),
        SyntaxKind::CACHE => Some(182),
        SyntaxKind::CYCLE => Some(183),
        SyntaxKind::INCREMENT => Some(184),
        SyntaxKind::MAXVALUE => Some(185),
        SyntaxKind::MINVALUE => Some(186),
        SyntaxKind::NAME_P => Some(187),
        SyntaxKind::START => Some(188),
        SyntaxKind::FCONST => Some(189),
        SyntaxKind::Plus => Some(190),
        SyntaxKind::Minus => Some(191),
        _ => code_from_192(kind),
    }
}

/// The number of a kind from `SERIALIZABLE` on; none for a kind before it.
fn code_from_64(kind: SyntaxKind) -> (c: Option<u32>)
    ensures
        match c {
            Some(c) => 64 <= c < KIND_COUNT && spec_kind_from_64(c) == kind,
            None => kind_before_64(kind),
        },
{
    match kind {
        SyntaxKind::SERIALIZABLE => Some(64),
        SyntaxKind::TRUE_P => Some(65),
        SyntaxKind::FALSE_P => Some(66),
        SyntaxKind::ON => Some(67),
        SyntaxKind::LParen => Some(68),
        SyntaxKind::RParen => Some(69),
        SyntaxKind::RESET => Some(70),
        SyntaxKind::ISOLATION => Some(71),
        SyntaxKind::LEVEL => Some(72),
        SyntaxKind::SHOW => Some(73),
        SyntaxKind::CONSTRAINTS => Some(74),
        SyntaxKind::DEFERRED => Some(75),
        SyntaxKind::IMMEDIATE => Some(76),
        SyntaxKind::CHECKPOINT => Some(77),
        SyntaxKind::DISCARD => Some(78),
        SyntaxKind::TEMP => Some(79),
        SyntaxKind::TEMPORARY => Some(80),
        SyntaxKind::PLANS => Some(81),
        SyntaxKind::SEQUENCES => Some(82),
        SyntaxKind::TABLE => Some(83),
        SyntaxKind::TABLESPACE => Some(84),
        SyntaxKind::OWNED => Some(85),
        SyntaxKind::BY => Some(86),
        SyntaxKind::INDEX => Some(87),
        SyntaxKind::SEQUENCE => Some(88),
        SyntaxKind::VIEW => Some(89),
        SyntaxKind::MATERIALIZED => Some(90),
        SyntaxKind::FOREIGN => Some(91),
        SyntaxKind::ATTACH => Some(92),
        SyntaxKind::PARTITION => Some(93),
        SyntaxKind::DETACH => Some(94),
        SyntaxKind::FINALIZE => Some(95),
        SyntaxKind::COLUMN => Some(96),
        SyntaxKind::EXPRESSION => Some(97),
        SyntaxKind::STATISTICS => Some(98),
        SyntaxKind::GENERATED => Some(99),
        SyntaxKind::IDENTITY_P => Some(100),
        SyntaxKind::TYPE_P => Some(101),
        SyntaxKind::CONSTRAINT => Some(102),
        SyntaxKind::VALIDATE => Some(103),
        SyntaxKind::WITHOUT => Some(104),
        SyntaxKind::OIDS => Some(105),
        SyntaxKind::CLUSTER => Some(106),
        SyntaxKind::LOGGED => Some(107),
        SyntaxKind::UNLOGGED => Some(108),
        SyntaxKind::ENABLE_P => Some(109),
        SyntaxKind::TRIGGER => Some(110),
        SyntaxKind::ALWAYS => Some(111),
        SyntaxKind::REPLICA => Some(112),
        SyntaxKind::DISABLE_P => Some(113),
        SyntaxKind::RULE => Some(114),
        SyntaxKind::NO => Some(115),
        SyntaxKind::OF => Some(116),
        SyntaxKind::OWNER => Some(117),
        SyntaxKind::ACCESS => Some(118),
        SyntaxKind::METHOD => Some(119),
        SyntaxKind::ROW => Some(120),
        SyntaxKind::SECURITY => Some(121),
        SyntaxKind::FORCE => Some(122),
        SyntaxKind::COLLATE => Some(123),
        SyntaxKind::USING => Some(124),
        SyntaxKind::NOTHING => Some(125),
        SyntaxKind::FULL => Some(126),
        SyntaxKind::RESTART => Some(127),
        _ => code_from_128(kind),
    }
}

/// The number of a kind from `MODE_TYPE_NAME` on; none for a kind before it.
fn code_from_0(kind: SyntaxKind) -> (c: Option<u32>)
    ensures
        match c {
            Some(c) => 0 <= c < KIND_COUNT && spec_kind_from_0(c) == kind,
            None => kind_before_0(kind),
        },
{
    match kind {
        SyntaxKind::MODE_TYPE_NAME => Some(0),
        SyntaxKind::MODE_PLPGSQL_EXPR => Some(1),
        SyntaxKind::MODE_PLPGSQL_ASSIGN1 => Some(2),
        SyntaxKind::MODE_PLPGSQL_ASSIGN2 => Some(3),
        SyntaxKind::MODE_PLPGSQL_ASSIGN3 => Some(4),
        SyntaxKind::Semicolon => Some(5),
        SyntaxKind::CONCURRENTLY => Some(6),
        SyntaxKind::CASCADE => Some(7),
        SyntaxKind::RESTRICT => Some(8),
        SyntaxKind::CALL => Some(9),
        SyntaxKind::CREATE => Some(10),
        SyntaxKind::ROLE => Some(11),
        SyntaxKind::WITH => Some(12),
        SyntaxKind::WITH_LA => Some(13),
        SyntaxKind::PASSWORD => Some(14),
        SyntaxKind::PARAM => Some(15),
        SyntaxKind::NULL_P => Some(16),
        SyntaxKind::ENCRYPTED => Some(17),
        SyntaxKind::UNENCRYPTED => Some(18),
        SyntaxKind::INHERIT => Some(19),
        SyntaxKind::CONNECTION => Some(20),
        SyntaxKind::LIMIT => Some(21),
        SyntaxKind::VALID => Some(22),
        SyntaxKind::UNTIL => Some(23),
        SyntaxKind::USER => Some(24),
        SyntaxKind::IDENT => Some(25),
        SyntaxKind::SYSID => Some(26),
        SyntaxKind::ADMIN => Some(27),
        SyntaxKind::IN_P => Some(28),
        SyntaxKind::GROUP_P => Some(29),
        SyntaxKind::ALTER => Some(30),
        SyntaxKind::DATABASE => Some(31),
        SyntaxKind::ALL => Some(32),
        SyntaxKind::DROP => Some(33),
        SyntaxKind::IF_P => Some(34),
        SyntaxKind::EXISTS => Some(35),
        SyntaxKind::ADD_P => Some(36),
        SyntaxKind::SCHEMA => Some(37),
        SyntaxKind::AUTHORIZATION => Some(38),
        SyntaxKind::NOT => Some(39),
        SyntaxKind::SET => Some(40),
        SyntaxKind::LOCAL => Some(41),
        SyntaxKind::SESSION => Some(42),
        SyntaxKind::TRANSACTION => Some(43),
        SyntaxKind::CHARACTERISTICS => Some(44),
        SyntaxKind::AS => Some(45),
        SyntaxKind::TO => Some(46),
        SyntaxKind::Equals => Some(47),
        SyntaxKind::DEFAULT => Some(48),
        SyntaxKind::FROM => Some(49),
        SyntaxKind::CURRENT_P => Some(50),
        SyntaxKind::TIME => Some(51),
        SyntaxKind::ZONE => Some(52),
        SyntaxKind::CATALOG_P => Some(53),
        SyntaxKind::NAMES => Some(54),
        SyntaxKind::XML_P => Some(55),
        SyntaxKind::OPTION => Some(56),
        SyntaxKind::SNAPSHOT => Some(57),
        SyntaxKind::Dot => Some(58),
        SyntaxKind::Comma => Some(59),
        SyntaxKind::READ => Some(60),
        SyntaxKind::UNCOMMITTED => Some(61),
        SyntaxKind::COMMITTED => Some(62),
        SyntaxKind::REPEATABLE => Some(63),
        _ => code_from_64(kind),
    }
}

/// The kind with the number `c`, for the numbers from 1216 on.
fn kind_from_1216(c: u32) -> (kind: SyntaxKind)
    ensures
        kind == spec_kind_from_1216(c),
{
    match c {
        1216 => SyntaxKind::bare_label_keyword,
        1217 => SyntaxKind::Dollaraccept,
        1218 => SyntaxKind::parse_toplevel,
        1219 => SyntaxKind::C_COMMENT,
        1220 => SyntaxKind::SQL_COMMENT,
        1221 => SyntaxKind::Whitespace,
        1222 => SyntaxKind::Root,
        _ => SyntaxKind::Root,
    }
}

/// The kind with the number `c`, for the numbers from 1152 on.
fn kind_from_1152(c: u32) -> (kind: SyntaxKind)
    ensures
        kind == spec_kind_from_1152(c),
{
    match c {
        1152 => SyntaxKind::json_key_uniqueness_constraint_opt,
        1153 => SyntaxKind::columnref,
        1154 => SyntaxKind::case_expr,
        1155 => SyntaxKind::func_expr,
        1156 => SyntaxKind::array_expr,
        1157 => SyntaxKind::explicit_row,
        1158 => SyntaxKind::implicit_row,
        1159 => SyntaxKind::func_arg_list,
        1160 => SyntaxKind::func_arg_expr,
        1161 => SyntaxKind::within_group_clause,
        1162 => SyntaxKind::filter_clause,
        1163 => SyntaxKind::over_clause,
        1164 => SyntaxKind::json_aggregate_func,
        1165 => SyntaxKind::func_expr_common_subexpr,
        1166 => SyntaxKind::extract_list,
        1167 => SyntaxKind::overlay_list,
        1168 => SyntaxKind::func_arg_list_opt,
        1169 => SyntaxKind::position_list,
        1170 => SyntaxKind::substr_list,
        1171 => SyntaxKind::trim_list,
        1172 => SyntaxKind::xml_attributes,
        1173 => SyntaxKind::xml_attribute_list,
        1174 => SyntaxKind::xml_whitespace_option,
        1175 => SyntaxKind::xml_root_version,
        1176 => SyntaxKind::opt_xml_root_standalone,
        1177 => SyntaxKind::xml_indent_option,
        1178 => SyntaxKind::json_name_and_value_list,
        1179 => SyntaxKind::json_object_constructor_null_clause_opt,
        1180 => SyntaxKind::json_output_clause_opt,
        1181 => SyntaxKind::json_value_expr_list,
        1182 => SyntaxKind::json_array_constructor_null_clause_opt,
        1183 => SyntaxKind::json_format_clause_opt,
        1184 => SyntaxKind::xml_attribute_el,
        1185 => SyntaxKind::xml_passing_mech,
        1186 => SyntaxKind::window_definition_list,
        1187 => SyntaxKind::window_definition,
        1188 => SyntaxKind::window_specification,
        1189 => SyntaxKind::opt_existing_window_name,
        1190 => SyntaxKind::opt_partition_clause,
        1191 => SyntaxKind::opt_frame_clause,
        1192 => SyntaxKind::frame_extent,
        1193 => SyntaxKind::opt_window_exclusion_clause,
        1194 => SyntaxKind::frame_bound,
        1195 => SyntaxKind::MathOp,
        1196 => SyntaxKind::array_expr_list,
        1197 => SyntaxKind::extract_arg,
        1198 => SyntaxKind::case_arg,
        1199 => SyntaxKind::when_clause_list,
        1200 => SyntaxKind::case_default,
        1201 => SyntaxKind::when_clause,
        1202 => SyntaxKind::opt_slice_bound,
        1203 => SyntaxKind::indirection_el,
        1204 => SyntaxKind::json_encoding_clause_opt,
        1205 => SyntaxKind::json_name_and_value,
        1206 => SyntaxKind::json_value_expr,
        1207 => SyntaxKind::json_array_aggregate_order_by_clause_opt,
        1208 => SyntaxKind::target_el,
        1209 => SyntaxKind::BareColLabel,
        1210 => SyntaxKind::ConstTypename,
        1211 => SyntaxKind::opt_distinct_clause,
        1212 => SyntaxKind::plassign_target,
        1213 => SyntaxKind::plassign_equals,
        1214 => SyntaxKind::unreserved_keyword,
        1215 => SyntaxKind::col_name_keyword,
        _ => kind_from_1216(c),
    }
}

/// The kind with the number `c`, for the numbers from 1088 on.
fn kind_from_1088(c: u32) -> (kind: SyntaxKind)
    ensures
        kind == spec_kind_from_1088(c),
{
    match c {
        1088 => SyntaxKind::row_or_rows,
        1089 => SyntaxKind::c_expr,
        1090 => SyntaxKind::I_or_F_const,
        1091 => SyntaxKind::group_by_list,
        1092 => SyntaxKind::group_by_item,
        1093 => SyntaxKind::empty_grouping_set,
        1094 => SyntaxKind::cube_clause,
        1095 => SyntaxKind::rollup_clause,
        1096 => SyntaxKind::grouping_sets_clause,
        1097 => SyntaxKind::for_locking_items,
        1098 => SyntaxKind::for_locking_item,
        1099 => SyntaxKind::for_locking_strength,
        1100 => SyntaxKind::locked_rels_list,
        1101 => SyntaxKind::opt_nowait_or_skip,
        1102 => SyntaxKind::opt_alias_clause,
        1103 => SyntaxKind::tablesample_clause,
        1104 => SyntaxKind::func_table,
        1105 => SyntaxKind::func_alias_clause,
        1106 => SyntaxKind::xmltable,
        1107 => SyntaxKind::joined_table,
        1108 => SyntaxKind::alias_clause,
        1109 => SyntaxKind::join_type,
        1110 => SyntaxKind::join_qual,
        1111 => SyntaxKind::TableFuncElementList,
        1112 => SyntaxKind::opt_outer,
        1113 => SyntaxKind::opt_alias_clause_for_join_using,
        1114 => SyntaxKind::opt_repeatable_clause,
        1115 => SyntaxKind::opt_ordinality,
        1116 => SyntaxKind::rowsfrom_list,
        1117 => SyntaxKind::opt_col_def_list,
        1118 => SyntaxKind::rowsfrom_item,
        1119 => SyntaxKind::xmlexists_argument,
        1120 => SyntaxKind::xmltable_column_list,
        1121 => SyntaxKind::xml_namespace_list,
        1122 => SyntaxKind::xmltable_column_el,
        1123 => SyntaxKind::xmltable_column_option_list,
        1124 => SyntaxKind::xmltable_column_option_el,
        1125 => SyntaxKind::xml_namespace_el,
        1126 => SyntaxKind::opt_array_bounds,
        1127 => SyntaxKind::GenericType,
        1128 => SyntaxKind::Numeric,
        1129 => SyntaxKind::Bit,
        1130 => SyntaxKind::Character,
        1131 => SyntaxKind::ConstDatetime,
        1132 => SyntaxKind::ConstBit,
        1133 => SyntaxKind::ConstCharacter,
        1134 => SyntaxKind::opt_type_modifiers,
        1135 => SyntaxKind::opt_float,
        1136 => SyntaxKind::BitWithLength,
        1137 => SyntaxKind::BitWithoutLength,
        1138 => SyntaxKind::opt_varying,
        1139 => SyntaxKind::CharacterWithLength,
        1140 => SyntaxKind::CharacterWithoutLength,
        1141 => SyntaxKind::character,
        1142 => SyntaxKind::opt_timezone,
        1143 => SyntaxKind::interval_second,
        1144 => SyntaxKind::qual_Op,
        1145 => SyntaxKind::row,
        1146 => SyntaxKind::opt_asymmetric,
        1147 => SyntaxKind::in_expr,
        1148 => SyntaxKind::subquery_Op,
        1149 => SyntaxKind::sub_type,
        1150 => SyntaxKind::unicode_normal_form,
        1151 => SyntaxKind::json_predicate_type_constraint,
        _ => kind_from_1152(c),
    }
}

/// The kind with the number `c`, for the numbers from 1024 on.
fn kind_from_1024(c: u32) -> (kind: SyntaxKind)
    ensures
        kind == spec_kind_from_1024(c),
{
    match c {
        1024 => SyntaxKind::insert_rest,
        1025 => SyntaxKind::opt_on_conflict,
        1026 => SyntaxKind::returning_clause,
        1027 => SyntaxKind::override_kind,
        1028 => SyntaxKind::insert_column_list,
        1029 => SyntaxKind::insert_column_item,
        1030 => SyntaxKind::opt_indirection,
        1031 => SyntaxKind::opt_conf_expr,
        1032 => SyntaxKind::set_clause_list,
        1033 => SyntaxKind::target_list,
        1034 => SyntaxKind::relation_expr_opt_alias,
        1035 => SyntaxKind::using_clause,
        1036 => SyntaxKind::where_or_current_clause,
        1037 => SyntaxKind::opt_lock,
        1038 => SyntaxKind::lock_type,
        1039 => SyntaxKind::from_clause,
        1040 => SyntaxKind::set_clause,
        1041 => SyntaxKind::set_target,
        1042 => SyntaxKind::set_target_list,
        1043 => SyntaxKind::table_ref,
        1044 => SyntaxKind::merge_when_list,
        1045 => SyntaxKind::merge_when_clause,
        1046 => SyntaxKind::opt_merge_when_condition,
        1047 => SyntaxKind::merge_update,
        1048 => SyntaxKind::merge_delete,
        1049 => SyntaxKind::merge_insert,
        1050 => SyntaxKind::merge_values_clause,
        1051 => SyntaxKind::cursor_options,
        1052 => SyntaxKind::opt_hold,
        1053 => SyntaxKind::select_no_parens,
        1054 => SyntaxKind::select_with_parens,
        1055 => SyntaxKind::simple_select,
        1056 => SyntaxKind::select_clause,
        1057 => SyntaxKind::sort_clause,
        1058 => SyntaxKind::opt_sort_clause,
        1059 => SyntaxKind::for_locking_clause,
        1060 => SyntaxKind::opt_select_limit,
        1061 => SyntaxKind::select_limit,
        1062 => SyntaxKind::opt_for_locking_clause,
        1063 => SyntaxKind::with_clause,
        1064 => SyntaxKind::opt_all_clause,
        1065 => SyntaxKind::opt_target_list,
        1066 => SyntaxKind::into_clause,
        1067 => SyntaxKind::group_clause,
        1068 => SyntaxKind::having_clause,
        1069 => SyntaxKind::window_clause,
        1070 => SyntaxKind::distinct_clause,
        1071 => SyntaxKind::values_clause,
        1072 => SyntaxKind::set_quantifier,
        1073 => SyntaxKind::cte_list,
        1074 => SyntaxKind::common_table_expr,
        1075 => SyntaxKind::opt_materialized,
        1076 => SyntaxKind::opt_search_clause,
        1077 => SyntaxKind::opt_cycle_clause,
        1078 => SyntaxKind::AexprConst,
        1079 => SyntaxKind::OptTempTableName,
        1080 => SyntaxKind::sortby_list,
        1081 => SyntaxKind::sortby,
        1082 => SyntaxKind::limit_clause,
        1083 => SyntaxKind::offset_clause,
        1084 => SyntaxKind::select_limit_value,
        1085 => SyntaxKind::select_offset_value,
        1086 => SyntaxKind::first_or_next,
        1087 => SyntaxKind::select_fetch_first_value,
        _ => kind_from_1088(c),
    }
}

/// The kind with the number `c`, for the numbers from 960 on.
fn kind_from_960(c: u32) -> (kind: SyntaxKind)
    ensures
        kind == spec_kind_from_960(c),
{
    match c {
        960 => SyntaxKind::ReturnStmt,
        961 => SyntaxKind::routine_body_stmt_list,
        962 => SyntaxKind::routine_body_stmt,
        963 => SyntaxKind::table_func_column,
        964 => SyntaxKind::alterfunc_opt_list,
        965 => SyntaxKind::opt_restrict,
        966 => SyntaxKind::operator_with_argtypes_list,
        967 => SyntaxKind::all_Op,
        968 => SyntaxKind::oper_argtypes,
        969 => SyntaxKind::dostmt_opt_list,
        970 => SyntaxKind::dostmt_opt_item,
        971 => SyntaxKind::cast_context,
        972 => SyntaxKind::opt_if_exists,
        973 => SyntaxKind::transform_element_list,
        974 => SyntaxKind::opt_reindex_option_list,
        975 => SyntaxKind::reindex_target_relation,
        976 => SyntaxKind::reindex_target_all,
        977 => SyntaxKind::utility_option_list,
        978 => SyntaxKind::opt_no,
        979 => SyntaxKind::operator_def_list,
        980 => SyntaxKind::operator_def_elem,
        981 => SyntaxKind::operator_def_arg,
        982 => SyntaxKind::pub_obj_list,
        983 => SyntaxKind::extended_relation_expr,
        984 => SyntaxKind::PublicationObjSpec,
        985 => SyntaxKind::event,
        986 => SyntaxKind::opt_instead,
        987 => SyntaxKind::RuleActionList,
        988 => SyntaxKind::RuleActionStmt,
        989 => SyntaxKind::RuleActionMulti,
        990 => SyntaxKind::RuleActionStmtOrEmpty,
        991 => SyntaxKind::notify_payload,
        992 => SyntaxKind::opt_transaction,
        993 => SyntaxKind::opt_transaction_chain,
        994 => SyntaxKind::transaction_mode_list_or_empty,
        995 => SyntaxKind::iso_level,
        996 => SyntaxKind::transaction_mode_item,
        997 => SyntaxKind::opt_check_option,
        998 => SyntaxKind::file_name,
        999 => SyntaxKind::createdb_opt_list,
        1000 => SyntaxKind::createdb_opt_items,
        1001 => SyntaxKind::createdb_opt_item,
        1002 => SyntaxKind::createdb_opt_name,
        1003 => SyntaxKind::opt_equal,
        1004 => SyntaxKind::drop_option_list,
        1005 => SyntaxKind::drop_option,
        1006 => SyntaxKind::any_with,
        1007 => SyntaxKind::opt_verbose,
        1008 => SyntaxKind::cluster_index_specification,
        1009 => SyntaxKind::opt_full,
        1010 => SyntaxKind::opt_freeze,
        1011 => SyntaxKind::opt_analyze,
        1012 => SyntaxKind::opt_vacuum_relation_list,
        1013 => SyntaxKind::analyze_keyword,
        1014 => SyntaxKind::utility_option_elem,
        1015 => SyntaxKind::utility_option_name,
        1016 => SyntaxKind::utility_option_arg,
        1017 => SyntaxKind::vacuum_relation,
        1018 => SyntaxKind::vacuum_relation_list,
        1019 => SyntaxKind::ExplainableStmt,
        1020 => SyntaxKind::prep_type_clause,
        1021 => SyntaxKind::execute_param_clause,
        1022 => SyntaxKind::opt_with_clause,
        1023 => SyntaxKind::insert_target,
        _ => kind_from_1024(c),
    }
}

/// The kind with the number `c`, for the numbers from 896 on.
fn kind_from_896(c: u32) -> (kind: SyntaxKind)
    ensures
        kind == spec_kind_from_896(c),
{
    match c {
        896 => SyntaxKind::opclass_drop,
        897 => SyntaxKind::any_name_list,
        898 => SyntaxKind::drop_type_name,
        899 => SyntaxKind::name_list,
        900 => SyntaxKind::object_type_name_on_any_name,
        901 => SyntaxKind::type_name_list,
        902 => SyntaxKind::attr_name,
        903 => SyntaxKind::opt_table,
        904 => SyntaxKind::opt_restart_seqs,
        905 => SyntaxKind::comment_text,
        906 => SyntaxKind::opt_provider,
        907 => SyntaxKind::security_label,
        908 => SyntaxKind::fetch_args,
        909 => SyntaxKind::from_in,
        910 => SyntaxKind::opt_from_in,
        911 => SyntaxKind::privileges,
        912 => SyntaxKind::privilege_target,
        913 => SyntaxKind::grantee_list,
        914 => SyntaxKind::opt_grant_grant_option,
        915 => SyntaxKind::opt_granted_by,
        916 => SyntaxKind::privilege_list,
        917 => SyntaxKind::privilege,
        918 => SyntaxKind::parameter_name,
        919 => SyntaxKind::parameter_name_list,
        920 => SyntaxKind::function_with_argtypes_list,
        921 => SyntaxKind::grantee,
        922 => SyntaxKind::grant_role_opt_list,
        923 => SyntaxKind::grant_role_opt,
        924 => SyntaxKind::grant_role_opt_value,
        925 => SyntaxKind::DefACLOptionList,
        926 => SyntaxKind::DefACLAction,
        927 => SyntaxKind::DefACLOption,
        928 => SyntaxKind::defacl_privilege_target,
        929 => SyntaxKind::opt_unique,
        930 => SyntaxKind::index_params,
        931 => SyntaxKind::opt_include,
        932 => SyntaxKind::opt_asc_desc,
        933 => SyntaxKind::opt_nulls_order,
        934 => SyntaxKind::index_elem_options,
        935 => SyntaxKind::index_including_params,
        936 => SyntaxKind::func_args_with_defaults,
        937 => SyntaxKind::func_return,
        938 => SyntaxKind::opt_createfunc_opt_list,
        939 => SyntaxKind::opt_routine_body,
        940 => SyntaxKind::table_func_column_list,
        941 => SyntaxKind::func_args_list,
        942 => SyntaxKind::func_arg,
        943 => SyntaxKind::func_args,
        944 => SyntaxKind::type_func_name_keyword,
        945 => SyntaxKind::indirection,
        946 => SyntaxKind::func_args_with_defaults_list,
        947 => SyntaxKind::func_arg_with_default,
        948 => SyntaxKind::arg_class,
        949 => SyntaxKind::param_name,
        950 => SyntaxKind::type_function_name,
        951 => SyntaxKind::aggr_args_list,
        952 => SyntaxKind::aggr_arg,
        953 => SyntaxKind::aggregate_with_argtypes_list,
        954 => SyntaxKind::createfunc_opt_list,
        955 => SyntaxKind::createfunc_opt_item,
        956 => SyntaxKind::FunctionSetResetClause,
        957 => SyntaxKind::func_as,
        958 => SyntaxKind::transform_type_list,
        959 => SyntaxKind::common_func_opt_item,
        _ => kind_from_960(c),
    }
}

/// The kind with the number `c`, for the numbers from 832 on.
fn kind_from_832(c: u32) -> (kind: SyntaxKind)
    ensures
        kind == spec_kind_from_832(c),
{
    match c {
        832 => SyntaxKind::alter_generic_option_list,
        833 => SyntaxKind::alter_generic_option_elem,
        834 => SyntaxKind::generic_option_name,
        835 => SyntaxKind::generic_option_arg,
        836 => SyntaxKind::opt_type,
        837 => SyntaxKind::opt_foreign_server_version,
        838 => SyntaxKind::foreign_server_version,
        839 => SyntaxKind::import_qualification,
        840 => SyntaxKind::import_qualification_type,
        841 => SyntaxKind::relation_expr_list,
        842 => SyntaxKind::auth_ident,
        843 => SyntaxKind::RowSecurityDefaultPermissive,
        844 => SyntaxKind::RowSecurityDefaultForCmd,
        845 => SyntaxKind::RowSecurityDefaultToRole,
        846 => SyntaxKind::RowSecurityOptionalExpr,
        847 => SyntaxKind::RowSecurityOptionalWithCheck,
        848 => SyntaxKind::RowSecurityOptionalToRole,
        849 => SyntaxKind::row_security_cmd,
        850 => SyntaxKind::am_type,
        851 => SyntaxKind::TriggerActionTime,
        852 => SyntaxKind::TriggerEvents,
        853 => SyntaxKind::TriggerReferencing,
        854 => SyntaxKind::TriggerForSpec,
        855 => SyntaxKind::TriggerWhen,
        856 => SyntaxKind::FUNCTION_or_PROCEDURE,
        857 => SyntaxKind::func_name,
        858 => SyntaxKind::TriggerFuncArgs,
        859 => SyntaxKind::OptConstrFromTable,
        860 => SyntaxKind::TriggerOneEvent,
        861 => SyntaxKind::TriggerTransitions,
        862 => SyntaxKind::TriggerTransition,
        863 => SyntaxKind::TransitionOldOrNew,
        864 => SyntaxKind::TransitionRowOrTable,
        865 => SyntaxKind::TransitionRelName,
        866 => SyntaxKind::TriggerForOptEach,
        867 => SyntaxKind::TriggerForType,
        868 => SyntaxKind::TriggerFuncArg,
        869 => SyntaxKind::ConstraintAttributeElem,
        870 => SyntaxKind::event_trigger_when_list,
        871 => SyntaxKind::event_trigger_when_item,
        872 => SyntaxKind::event_trigger_value_list,
        873 => SyntaxKind::enable_trigger,
        874 => SyntaxKind::aggr_args,
        875 => SyntaxKind::definition,
        876 => SyntaxKind::old_aggr_definition,
        877 => SyntaxKind::OptTableFuncElementList,
        878 => SyntaxKind::opt_enum_val_list,
        879 => SyntaxKind::def_list,
        880 => SyntaxKind::def_elem,
        881 => SyntaxKind::func_type,
        882 => SyntaxKind::reserved_keyword,
        883 => SyntaxKind::qual_all_Op,
        884 => SyntaxKind::old_aggr_list,
        885 => SyntaxKind::old_aggr_elem,
        886 => SyntaxKind::enum_val_list,
        887 => SyntaxKind::opt_if_not_exists,
        888 => SyntaxKind::opt_default,
        889 => SyntaxKind::opt_opfamily,
        890 => SyntaxKind::opclass_item_list,
        891 => SyntaxKind::opclass_item,
        892 => SyntaxKind::opclass_purpose,
        893 => SyntaxKind::opt_recheck,
        894 => SyntaxKind::type_list,
        895 => SyntaxKind::opclass_drop_list,
        _ => kind_from_896(c),
    }
}

/// The kind with the number `c`, for the numbers from 768 on.
fn kind_from_768(c: u32) -> (kind: SyntaxKind)
    ensures
        kind == spec_kind_from_768(c),
{
    match c {
        768 => SyntaxKind::opt_definition,
        769 => SyntaxKind::OptConsTableSpace,
        770 => SyntaxKind::opt_no_inherit,
        771 => SyntaxKind::b_expr,
        772 => SyntaxKind::key_match,
        773 => SyntaxKind::key_actions,
        774 => SyntaxKind::TableLikeOptionList,
        775 => SyntaxKind::TableLikeOption,
        776 => SyntaxKind::ConstraintElem,
        777 => SyntaxKind::opt_c_include,
        778 => SyntaxKind::ExistingIndex,
        779 => SyntaxKind::access_method_clause,
        780 => SyntaxKind::ExclusionConstraintList,
        781 => SyntaxKind::OptWhereClause,
        782 => SyntaxKind::columnElem,
        783 => SyntaxKind::ExclusionConstraintElem,
        784 => SyntaxKind::index_elem,
        785 => SyntaxKind::any_operator,
        786 => SyntaxKind::key_update,
        787 => SyntaxKind::key_delete,
        788 => SyntaxKind::key_action,
        789 => SyntaxKind::PartitionSpec,
        790 => SyntaxKind::part_params,
        791 => SyntaxKind::part_elem,
        792 => SyntaxKind::opt_collate,
        793 => SyntaxKind::opt_qualified_name,
        794 => SyntaxKind::func_expr_windowless,
        795 => SyntaxKind::opt_name_list,
        796 => SyntaxKind::stats_params,
        797 => SyntaxKind::from_list,
        798 => SyntaxKind::stats_param,
        799 => SyntaxKind::create_as_target,
        800 => SyntaxKind::opt_with_data,
        801 => SyntaxKind::OptNoLog,
        802 => SyntaxKind::create_mv_target,
        803 => SyntaxKind::opt_reloptions,
        804 => SyntaxKind::OptSeqOptList,
        805 => SyntaxKind::SeqOptList,
        806 => SyntaxKind::SimpleTypename,
        807 => SyntaxKind::opt_by,
        808 => SyntaxKind::NumericOnly_list,
        809 => SyntaxKind::opt_or_replace,
        810 => SyntaxKind::opt_trusted,
        811 => SyntaxKind::opt_procedural,
        812 => SyntaxKind::handler_name,
        813 => SyntaxKind::opt_inline_handler,
        814 => SyntaxKind::opt_validator,
        815 => SyntaxKind::attrs,
        816 => SyntaxKind::validator_clause,
        817 => SyntaxKind::OptTableSpaceOwner,
        818 => SyntaxKind::create_extension_opt_list,
        819 => SyntaxKind::create_extension_opt_item,
        820 => SyntaxKind::alter_extension_opt_list,
        821 => SyntaxKind::alter_extension_opt_item,
        822 => SyntaxKind::object_type_name,
        823 => SyntaxKind::object_type_any_name,
        824 => SyntaxKind::aggregate_with_argtypes,
        825 => SyntaxKind::function_with_argtypes,
        826 => SyntaxKind::operator_with_argtypes,
        827 => SyntaxKind::opt_fdw_options,
        828 => SyntaxKind::fdw_option,
        829 => SyntaxKind::fdw_options,
        830 => SyntaxKind::generic_option_list,
        831 => SyntaxKind::generic_option_elem,
        _ => kind_from_832(c),
    }
}

/// The kind with the number `c`, for the numbers from 704 on.
fn kind_from_704(c: u32) -> (kind: SyntaxKind)
    ensures
        kind == spec_kind_from_704(c),
{
    match c {
        704 => SyntaxKind::opt_drop_behavior,
        705 => SyntaxKind::opt_set_data,
        706 => SyntaxKind::opt_collate_clause,
        707 => SyntaxKind::alter_using,
        708 => SyntaxKind::alter_generic_options,
        709 => SyntaxKind::TableConstraint,
        710 => SyntaxKind::ConstraintAttributeSpec,
        711 => SyntaxKind::replica_identity,
        712 => SyntaxKind::a_expr,
        713 => SyntaxKind::reloption_list,
        714 => SyntaxKind::reloption_elem,
        715 => SyntaxKind::ColLabel,
        716 => SyntaxKind::def_arg,
        717 => SyntaxKind::alter_identity_column_option,
        718 => SyntaxKind::SeqOptElem,
        719 => SyntaxKind::hash_partbound,
        720 => SyntaxKind::expr_list,
        721 => SyntaxKind::hash_partbound_elem,
        722 => SyntaxKind::alter_type_cmds,
        723 => SyntaxKind::alter_type_cmd,
        724 => SyntaxKind::TableFuncElement,
        725 => SyntaxKind::cursor_name,
        726 => SyntaxKind::opt_binary,
        727 => SyntaxKind::opt_column_list,
        728 => SyntaxKind::copy_from,
        729 => SyntaxKind::opt_program,
        730 => SyntaxKind::copy_file_name,
        731 => SyntaxKind::copy_delimiter,
        732 => SyntaxKind::copy_options,
        733 => SyntaxKind::where_clause,
        734 => SyntaxKind::PreparableStmt,
        735 => SyntaxKind::copy_opt_list,
        736 => SyntaxKind::copy_generic_opt_list,
        737 => SyntaxKind::copy_opt_item,
        738 => SyntaxKind::opt_as,
        739 => SyntaxKind::columnList,
        740 => SyntaxKind::opt_using,
        741 => SyntaxKind::copy_generic_opt_elem,
        742 => SyntaxKind::copy_generic_opt_arg,
        743 => SyntaxKind::copy_generic_opt_arg_list,
        744 => SyntaxKind::copy_generic_opt_arg_list_item,
        745 => SyntaxKind::OptTemp,
        746 => SyntaxKind::OptTableElementList,
        747 => SyntaxKind::OptInherit,
        748 => SyntaxKind::OptPartitionSpec,
        749 => SyntaxKind::table_access_method_clause,
        750 => SyntaxKind::OptWith,
        751 => SyntaxKind::OnCommitOption,
        752 => SyntaxKind::OptTableSpace,
        753 => SyntaxKind::OptTypedTableElementList,
        754 => SyntaxKind::TableElementList,
        755 => SyntaxKind::TypedTableElementList,
        756 => SyntaxKind::TableElement,
        757 => SyntaxKind::TypedTableElement,
        758 => SyntaxKind::TableLikeClause,
        759 => SyntaxKind::columnOptions,
        760 => SyntaxKind::opt_column_storage,
        761 => SyntaxKind::opt_column_compression,
        762 => SyntaxKind::create_generic_options,
        763 => SyntaxKind::ColQualList,
        764 => SyntaxKind::ColConstraint,
        765 => SyntaxKind::ColConstraintElem,
        766 => SyntaxKind::ConstraintAttr,
        767 => SyntaxKind::opt_unique_null_treatment,
        _ => kind_from_768(c),
    }
}

/// The kind with the number `c`, for the numbers from 640 on.
fn kind_from_640(c: u32) -> (kind: SyntaxKind)
    ensures
        kind == spec_kind_from_640(c),
{
    match c {
        640 => SyntaxKind::VariableResetStmt,
        641 => SyntaxKind::VariableSetStmt,
        642 => SyntaxKind::VariableShowStmt,
        643 => SyntaxKind::ViewStmt,
        644 => SyntaxKind::ColId,
        645 => SyntaxKind::any_name,
        646 => SyntaxKind::func_application,
        647 => SyntaxKind::RoleId,
        648 => SyntaxKind::opt_with,
        649 => SyntaxKind::OptRoleList,
        650 => SyntaxKind::CreateOptRoleElem,
        651 => SyntaxKind::AlterOptRoleList,
        652 => SyntaxKind::AlterOptRoleElem,
        653 => SyntaxKind::Sconst,
        654 => SyntaxKind::SignedIconst,
        655 => SyntaxKind::role_list,
        656 => SyntaxKind::Iconst,
        657 => SyntaxKind::RoleSpec,
        658 => SyntaxKind::name,
        659 => SyntaxKind::opt_in_database,
        660 => SyntaxKind::SetResetClause,
        661 => SyntaxKind::add_drop,
        662 => SyntaxKind::opt_single_name,
        663 => SyntaxKind::OptSchemaEltList,
        664 => SyntaxKind::schema_stmt,
        665 => SyntaxKind::set_rest,
        666 => SyntaxKind::transaction_mode_list,
        667 => SyntaxKind::set_rest_more,
        668 => SyntaxKind::var_name,
        669 => SyntaxKind::var_list,
        670 => SyntaxKind::generic_set,
        671 => SyntaxKind::zone_value,
        672 => SyntaxKind::opt_encoding,
        673 => SyntaxKind::NonReservedWord_or_Sconst,
        674 => SyntaxKind::document_or_content,
        675 => SyntaxKind::var_value,
        676 => SyntaxKind::opt_boolean_or_string,
        677 => SyntaxKind::NumericOnly,
        678 => SyntaxKind::ConstInterval,
        679 => SyntaxKind::opt_interval,
        680 => SyntaxKind::NonReservedWord,
        681 => SyntaxKind::reset_rest,
        682 => SyntaxKind::generic_reset,
        683 => SyntaxKind::constraints_set_list,
        684 => SyntaxKind::constraints_set_mode,
        685 => SyntaxKind::qualified_name_list,
        686 => SyntaxKind::relation_expr,
        687 => SyntaxKind::alter_table_cmds,
        688 => SyntaxKind::partition_cmd,
        689 => SyntaxKind::opt_nowait,
        690 => SyntaxKind::qualified_name,
        691 => SyntaxKind::index_partition_cmd,
        692 => SyntaxKind::alter_table_cmd,
        693 => SyntaxKind::PartitionBoundSpec,
        694 => SyntaxKind::opt_concurrently,
        695 => SyntaxKind::columnDef,
        696 => SyntaxKind::opt_column,
        697 => SyntaxKind::alter_column_default,
        698 => SyntaxKind::reloptions,
        699 => SyntaxKind::column_storage,
        700 => SyntaxKind::column_compression,
        701 => SyntaxKind::generated_when,
        702 => SyntaxKind::OptParenthesizedSeqOptList,
        703 => SyntaxKind::alter_identity_column_option_list,
        _ => kind_from_704(c),
    }
}

/// The kind with the number `c`, for the numbers from 576 on.
fn kind_from_576(c: u32) -> (kind: SyntaxKind)
    ensures
        kind == spec_kind_from_576(c),
{
    match c {
        576 => SyntaxKind::AlterOpFamilyStmt,
        577 => SyntaxKind::CreatePolicyStmt,
        578 => SyntaxKind::CreatePLangStmt,
        579 => SyntaxKind::CreateSchemaStmt,
        580 => SyntaxKind::CreateSeqStmt,
        581 => SyntaxKind::CreateStmt,
        582 => SyntaxKind::CreateSubscriptionStmt,
        583 => SyntaxKind::CreateStatsStmt,
        584 => SyntaxKind::CreateTableSpaceStmt,
        585 => SyntaxKind::CreateTransformStmt,
        586 => SyntaxKind::CreateTrigStmt,
        587 => SyntaxKind::CreateEventTrigStmt,
        588 => SyntaxKind::CreateRoleStmt,
        589 => SyntaxKind::CreateUserStmt,
        590 => SyntaxKind::CreateUserMappingStmt,
        591 => SyntaxKind::CreatedbStmt,
        592 => SyntaxKind::DeallocateStmt,
        593 => SyntaxKind::DeclareCursorStmt,
        594 => SyntaxKind::DefineStmt,
        595 => SyntaxKind::DeleteStmt,
        596 => SyntaxKind::DiscardStmt,
        597 => SyntaxKind::DoStmt,
        598 => SyntaxKind::DropCastStmt,
        599 => SyntaxKind::DropOpClassStmt,
        600 => SyntaxKind::DropOpFamilyStmt,
        601 => SyntaxKind::DropOwnedStmt,
        602 => SyntaxKind::DropStmt,
        603 => SyntaxKind::DropSubscriptionStmt,
        604 => SyntaxKind::DropTableSpaceStmt,
        605 => SyntaxKind::DropTransformStmt,
        606 => SyntaxKind::DropRoleStmt,
        607 => SyntaxKind::DropUserMappingStmt,
        608 => SyntaxKind::DropdbStmt,
        609 => SyntaxKind::ExecuteStmt,
        610 => SyntaxKind::ExplainStmt,
        611 => SyntaxKind::FetchStmt,
        612 => SyntaxKind::GrantStmt,
        613 => SyntaxKind::GrantRoleStmt,
        614 => SyntaxKind::ImportForeignSchemaStmt,
        615 => SyntaxKind::IndexStmt,
        616 => SyntaxKind::InsertStmt,
        617 => SyntaxKind::ListenStmt,
        618 => SyntaxKind::RefreshMatViewStmt,
        619 => SyntaxKind::LoadStmt,
        620 => SyntaxKind::LockStmt,
        621 => SyntaxKind::MergeStmt,
        622 => SyntaxKind::NotifyStmt,
        623 => SyntaxKind::PrepareStmt,
        624 => SyntaxKind::ReassignOwnedStmt,
        625 => SyntaxKind::ReindexStmt,
        626 => SyntaxKind::RemoveAggrStmt,
        627 => SyntaxKind::RemoveFuncStmt,
        628 => SyntaxKind::RemoveOperStmt,
        629 => SyntaxKind::RenameStmt,
        630 => SyntaxKind::RevokeStmt,
        631 => SyntaxKind::RevokeRoleStmt,
        632 => SyntaxKind::RuleStmt,
        633 => SyntaxKind::SecLabelStmt,
        634 => SyntaxKind::SelectStmt,
        635 => SyntaxKind::TransactionStmt,
        636 => SyntaxKind::TruncateStmt,
        637 => SyntaxKind::UnlistenStmt,
        638 => SyntaxKind::UpdateStmt,
        639 => SyntaxKind::VacuumStmt,
        _ => kind_from_640(c),
    }
}

/// The kind with the number `c`, for the numbers from 512 on.
fn kind_from_512(c: u32) -> (kind: SyntaxKind)
    ensures
        kind == spec_kind_from_512(c),
{
    match c {
        512 => SyntaxKind::Dollarend,
        513 => SyntaxKind::stmtmulti,
        514 => SyntaxKind::Typename,
        515 => SyntaxKind::PLpgSQL_Expr,
        516 => SyntaxKind::PLAssignStmt,
        517 => SyntaxKind::toplevel_stmt,
        518 => SyntaxKind::stmt,
        519 => SyntaxKind::TransactionStmtLegacy,
        520 => SyntaxKind::AlterEventTrigStmt,
        521 => SyntaxKind::AlterCollationStmt,
        522 => SyntaxKind::AlterDatabaseStmt,
        523 => SyntaxKind::AlterDatabaseSetStmt,
        524 => SyntaxKind::AlterDefaultPrivilegesStmt,
        525 => SyntaxKind::AlterDomainStmt,
        526 => SyntaxKind::AlterEnumStmt,
        527 => SyntaxKind::AlterExtensionStmt,
        528 => SyntaxKind::AlterExtensionContentsStmt,
        529 => SyntaxKind::AlterFdwStmt,
        530 => SyntaxKind::AlterForeignServerStmt,
        531 => SyntaxKind::AlterFunctionStmt,
        532 => SyntaxKind::AlterGroupStmt,
        533 => SyntaxKind::AlterObjectDependsStmt,
        534 => SyntaxKind::AlterObjectSchemaStmt,
        535 => SyntaxKind::AlterOwnerStmt,
        536 => SyntaxKind::AlterOperatorStmt,
        537 => SyntaxKind::AlterTypeStmt,
        538 => SyntaxKind::AlterPolicyStmt,
        539 => SyntaxKind::AlterSeqStmt,
        540 => SyntaxKind::AlterSystemStmt,
        541 => SyntaxKind::AlterTableStmt,
        542 => SyntaxKind::AlterTblSpcStmt,
        543 => SyntaxKind::AlterCompositeTypeStmt,
        544 => SyntaxKind::AlterPublicationStmt,
        545 => SyntaxKind::AlterRoleSetStmt,
        546 => SyntaxKind::AlterRoleStmt,
        547 => SyntaxKind::AlterSubscriptionStmt,
        548 => SyntaxKind::AlterStatsStmt,
        549 => SyntaxKind::AlterTSConfigurationStmt,
        550 => SyntaxKind::AlterTSDictionaryStmt,
        551 => SyntaxKind::AlterUserMappingStmt,
        552 => SyntaxKind::AnalyzeStmt,
        553 => SyntaxKind::CallStmt,
        554 => SyntaxKind::CheckPointStmt,
        555 => SyntaxKind::ClosePortalStmt,
        556 => SyntaxKind::ClusterStmt,
        557 => SyntaxKind::CommentStmt,
        558 => SyntaxKind::ConstraintsSetStmt,
        559 => SyntaxKind::CopyStmt,
        560 => SyntaxKind::CreateAmStmt,
        561 => SyntaxKind::CreateAsStmt,
        562 => SyntaxKind::CreateAssertionStmt,
        563 => SyntaxKind::CreateCastStmt,
        564 => SyntaxKind::CreateConversionStmt,
        565 => SyntaxKind::CreateDomainStmt,
        566 => SyntaxKind::CreateExtensionStmt,
        567 => SyntaxKind::CreateFdwStmt,
        568 => SyntaxKind::CreateForeignServerStmt,
        569 => SyntaxKind::CreateForeignTableStmt,
        570 => SyntaxKind::CreateFunctionStmt,
        571 => SyntaxKind::CreateGroupStmt,
        572 => SyntaxKind::CreateMatViewStmt,
        573 => SyntaxKind::CreateOpClassStmt,
        574 => SyntaxKind::CreateOpFamilyStmt,
        575 => SyntaxKind::CreatePublicationStmt,
        _ => kind_from_576(c),
    }
}

/// The kind with the number `c`, for the numbers from 448 on.
fn kind_from_448(c: u32) -> (kind: SyntaxKind)
    ensures
        kind == spec_kind_from_448(c),
{
    match c {
        448 => SyntaxKind::SUBSTRING,
        449 => SyntaxKind::TREAT,
        450 => SyntaxKind::TRIM,
        451 => SyntaxKind::BOTH,
        452 => SyntaxKind::LEADING,
        453 => SyntaxKind::TRAILING,
        454 => SyntaxKind::NULLIF,
        455 => SyntaxKind::COALESCE,
        456 => SyntaxKind::GREATEST,
        457 => SyntaxKind::LEAST,
        458 => SyntaxKind::XMLCONCAT,
        459 => SyntaxKind::XMLELEMENT,
        460 => SyntaxKind::XMLEXISTS,
        461 => SyntaxKind::XMLFOREST,
        462 => SyntaxKind::XMLPARSE,
        463 => SyntaxKind::XMLPI,
        464 => SyntaxKind::XMLROOT,
        465 => SyntaxKind::XMLSERIALIZE,
        466 => SyntaxKind::JSON_OBJECT,
        467 => SyntaxKind::JSON_ARRAY,
        468 => SyntaxKind::STANDALONE_P,
        469 => SyntaxKind::YES_P,
        470 => SyntaxKind::XMLATTRIBUTES,
        471 => SyntaxKind::CONTENT_P,
        472 => SyntaxKind::INDENT,
        473 => SyntaxKind::WHITESPACE_P,
        474 => SyntaxKind::STRIP_P,
        475 => SyntaxKind::PASSING,
        476 => SyntaxKind::REF_P,
        477 => SyntaxKind::WITHIN,
        478 => SyntaxKind::FILTER,
        479 => SyntaxKind::OVER,
        480 => SyntaxKind::GROUPS,
        481 => SyntaxKind::UNBOUNDED,
        482 => SyntaxKind::PRECEDING,
        483 => SyntaxKind::FOLLOWING,
        484 => SyntaxKind::OTHERS,
        485 => SyntaxKind::ANY,
        486 => SyntaxKind::SOME,
        487 => SyntaxKind::Op,
        488 => SyntaxKind::COLON_EQUALS,
        489 => SyntaxKind::EQUALS_GREATER,
        490 => SyntaxKind::NFC,
        491 => SyntaxKind::NFD,
        492 => SyntaxKind::NFKC,
        493 => SyntaxKind::NFKD,
        494 => SyntaxKind::PLACING,
        495 => SyntaxKind::CASE,
        496 => SyntaxKind::ELSE,
        497 => SyntaxKind::Colon,
        498 => SyntaxKind::ASYMMETRIC,
        499 => SyntaxKind::JSON,
        500 => SyntaxKind::SCALAR,
        501 => SyntaxKind::KEYS,
        502 => SyntaxKind::ABSENT,
        503 => SyntaxKind::JSON_OBJECTAGG,
        504 => SyntaxKind::JSON_ARRAYAGG,
        505 => SyntaxKind::BCONST,
        506 => SyntaxKind::XCONST,
        507 => SyntaxKind::ICONST,
        508 => SyntaxKind::FORMAT,
        509 => SyntaxKind::OFF,
        510 => SyntaxKind::UESCAPE,
        511 => SyntaxKind::VIEWS,
        _ => kind_from_512(c),
    }
}

/// The kind with the number `c`, for the numbers from 384 on.
fn kind_from_384(c: u32) -> (kind: SyntaxKind)
    ensures
        kind == spec_kind_from_384(c),
{
    match c {
        384 => SyntaxKind::LBracket,
        385 => SyntaxKind::RBracket,
        386 => SyntaxKind::INT_P,
        387 => SyntaxKind::INTEGER,
        388 => SyntaxKind::SMALLINT,
        389 => SyntaxKind::BIGINT,
        390 => SyntaxKind::REAL,
        391 => SyntaxKind::FLOAT_P,
        392 => SyntaxKind::DOUBLE_P,
        393 => SyntaxKind::PRECISION,
        394 => SyntaxKind::DECIMAL_P,
        395 => SyntaxKind::DEC,
        396 => SyntaxKind::NUMERIC,
        397 => SyntaxKind::BOOLEAN_P,
        398 => SyntaxKind::BIT,
        399 => SyntaxKind::CHARACTER,
        400 => SyntaxKind::CHAR_P,
        401 => SyntaxKind::VARCHAR,
        402 => SyntaxKind::NATIONAL,
        403 => SyntaxKind::NCHAR,
        404 => SyntaxKind::VARYING,
        405 => SyntaxKind::TIMESTAMP,
        406 => SyntaxKind::INTERVAL,
        407 => SyntaxKind::WITHOUT_LA,
        408 => SyntaxKind::YEAR_P,
        409 => SyntaxKind::MONTH_P,
        410 => SyntaxKind::DAY_P,
        411 => SyntaxKind::HOUR_P,
        412 => SyntaxKind::MINUTE_P,
        413 => SyntaxKind::SECOND_P,
        414 => SyntaxKind::TYPECAST,
        415 => SyntaxKind::AT,
        416 => SyntaxKind::Slash,
        417 => SyntaxKind::Caret,
        418 => SyntaxKind::Less,
        419 => SyntaxKind::Greater,
        420 => SyntaxKind::LESS_EQUALS,
        421 => SyntaxKind::GREATER_EQUALS,
        422 => SyntaxKind::NOT_EQUALS,
        423 => SyntaxKind::NOT_LA,
        424 => SyntaxKind::ILIKE,
        425 => SyntaxKind::SIMILAR,
        426 => SyntaxKind::ISNULL,
        427 => SyntaxKind::NOTNULL,
        428 => SyntaxKind::OVERLAPS,
        429 => SyntaxKind::UNKNOWN,
        430 => SyntaxKind::BETWEEN,
        431 => SyntaxKind::SYMMETRIC,
        432 => SyntaxKind::DOCUMENT_P,
        433 => SyntaxKind::NORMALIZED,
        434 => SyntaxKind::CURRENT_DATE,
        435 => SyntaxKind::CURRENT_TIME,
        436 => SyntaxKind::CURRENT_TIMESTAMP,
        437 => SyntaxKind::LOCALTIME,
        438 => SyntaxKind::LOCALTIMESTAMP,
        439 => SyntaxKind::CURRENT_ROLE,
        440 => SyntaxKind::CURRENT_USER,
        441 => SyntaxKind::SESSION_USER,
        442 => SyntaxKind::SYSTEM_USER,
        443 => SyntaxKind::CURRENT_CATALOG,
        444 => SyntaxKind::EXTRACT,
        445 => SyntaxKind::NORMALIZE,
        446 => SyntaxKind::OVERLAY,
        447 => SyntaxKind::POSITION,
        _ => kind_from_448(c),
    }
}

/// The kind with the number `c`, for the numbers from 320 on.
fn kind_from_320(c: u32) -> (kind: SyntaxKind)
    ensures
        kind == spec_kind_from_320(c),
{
    match c {
        320 => SyntaxKind::UNLISTEN,
        321 => SyntaxKind::ABORT_P,
        322 => SyntaxKind::ROLLBACK,
        323 => SyntaxKind::SAVEPOINT,
        324 => SyntaxKind::RELEASE,
        325 => SyntaxKind::PREPARE,
        326 => SyntaxKind::PREPARED,
        327 => SyntaxKind::WORK,
        328 => SyntaxKind::ONLY,
        329 => SyntaxKind::WRITE,
        330 => SyntaxKind::CHAIN,
        331 => SyntaxKind::RECURSIVE,
        332 => SyntaxKind::CASCADED,
        333 => SyntaxKind::LOAD,
        334 => SyntaxKind::VACUUM,
        335 => SyntaxKind::ANALYZE,
        336 => SyntaxKind::ANALYSE,
        337 => SyntaxKind::FORMAT_LA,
        338 => SyntaxKind::VERBOSE,
        339 => SyntaxKind::EXPLAIN,
        340 => SyntaxKind::DEALLOCATE,
        341 => SyntaxKind::OVERRIDING,
        342 => SyntaxKind::CONFLICT,
        343 => SyntaxKind::RETURNING,
        344 => SyntaxKind::LOCK_P,
        345 => SyntaxKind::MODE,
        346 => SyntaxKind::SHARE,
        347 => SyntaxKind::EXCLUSIVE,
        348 => SyntaxKind::NOWAIT,
        349 => SyntaxKind::LOCKED,
        350 => SyntaxKind::MERGE,
        351 => SyntaxKind::MATCHED,
        352 => SyntaxKind::THEN,
        353 => SyntaxKind::DECLARE,
        354 => SyntaxKind::CURSOR,
        355 => SyntaxKind::SCROLL,
        356 => SyntaxKind::ASENSITIVE,
        357 => SyntaxKind::INSENSITIVE,
        358 => SyntaxKind::HOLD,
        359 => SyntaxKind::UNION,
        360 => SyntaxKind::INTERSECT,
        361 => SyntaxKind::DEPTH,
        362 => SyntaxKind::BREADTH,
        363 => SyntaxKind::TIES,
        364 => SyntaxKind::OFFSET,
        365 => SyntaxKind::ROLLUP,
        366 => SyntaxKind::CUBE,
        367 => SyntaxKind::GROUPING,
        368 => SyntaxKind::SETS,
        369 => SyntaxKind::HAVING,
        370 => SyntaxKind::LATERAL_P,
        371 => SyntaxKind::CROSS,
        372 => SyntaxKind::JOIN,
        373 => SyntaxKind::NATURAL,
        374 => SyntaxKind::LEFT,
        375 => SyntaxKind::RIGHT,
        376 => SyntaxKind::INNER_P,
        377 => SyntaxKind::OUTER_P,
        378 => SyntaxKind::TABLESAMPLE,
        379 => SyntaxKind::ORDINALITY,
        380 => SyntaxKind::XMLTABLE,
        381 => SyntaxKind::COLUMNS,
        382 => SyntaxKind::XMLNAMESPACES,
        383 => SyntaxKind::ARRAY,
        _ => kind_from_384(c),
    }
}

/// The kind with the number `c`, for the numbers from 256 on.
fn kind_from_256(c: u32) -> (kind: SyntaxKind)
    ensures
        kind == spec_kind_from_256(c),
{
    match c {
        256 => SyntaxKind::LARGE_P,
        257 => SyntaxKind::OBJECT_P,
        258 => SyntaxKind::LABEL,
        259 => SyntaxKind::FETCH,
        260 => SyntaxKind::MOVE,
        261 => SyntaxKind::NEXT,
        262 => SyntaxKind::PRIOR,
        263 => SyntaxKind::FIRST_P,
        264 => SyntaxKind::LAST_P,
        265 => SyntaxKind::ABSOLUTE_P,
        266 => SyntaxKind::RELATIVE_P,
        267 => SyntaxKind::FORWARD,
        268 => SyntaxKind::BACKWARD,
        269 => SyntaxKind::GRANT,
        270 => SyntaxKind::REVOKE,
        271 => SyntaxKind::PRIVILEGES,
        272 => SyntaxKind::SYSTEM_P,
        273 => SyntaxKind::PARAMETER,
        274 => SyntaxKind::TABLES,
        275 => SyntaxKind::FUNCTIONS,
        276 => SyntaxKind::PROCEDURES,
        277 => SyntaxKind::ROUTINES,
        278 => SyntaxKind::GRANTED,
        279 => SyntaxKind::TYPES_P,
        280 => SyntaxKind::SCHEMAS,
        281 => SyntaxKind::ASC,
        282 => SyntaxKind::DESC,
        283 => SyntaxKind::NULLS_LA,
        284 => SyntaxKind::RETURNS,
        285 => SyntaxKind::REPLACE,
        286 => SyntaxKind::OUT_P,
        287 => SyntaxKind::INOUT,
        288 => SyntaxKind::VARIADIC,
        289 => SyntaxKind::Percent,
        290 => SyntaxKind::SETOF,
        291 => SyntaxKind::CALLED,
        292 => SyntaxKind::INPUT_P,
        293 => SyntaxKind::STRICT_P,
        294 => SyntaxKind::IMMUTABLE,
        295 => SyntaxKind::STABLE,
        296 => SyntaxKind::VOLATILE,
        297 => SyntaxKind::EXTERNAL,
        298 => SyntaxKind::DEFINER,
        299 => SyntaxKind::INVOKER,
        300 => SyntaxKind::LEAKPROOF,
        301 => SyntaxKind::COST,
        302 => SyntaxKind::SUPPORT,
        303 => SyntaxKind::PARALLEL,
        304 => SyntaxKind::WINDOW,
        305 => SyntaxKind::RETURN,
        306 => SyntaxKind::BEGIN_P,
        307 => SyntaxKind::ATOMIC,
        308 => SyntaxKind::END_P,
        309 => SyntaxKind::DO,
        310 => SyntaxKind::IMPLICIT_P,
        311 => SyntaxKind::ASSIGNMENT,
        312 => SyntaxKind::SQL_P,
        313 => SyntaxKind::REINDEX,
        314 => SyntaxKind::DEPENDS,
        315 => SyntaxKind::CURRENT_SCHEMA,
        316 => SyntaxKind::SKIP,
        317 => SyntaxKind::ALSO,
        318 => SyntaxKind::NOTIFY,
        319 => SyntaxKind::LISTEN,
        _ => kind_from_320(c),
    }
}

/// The kind with the number `c`, for the numbers from 192 on.
fn kind_from_192(c: u32) -> (kind: SyntaxKind)
    ensures
        kind == spec_kind_from_192(c),
{
    match c {
        192 => SyntaxKind::LANGUAGE,
        193 => SyntaxKind::HANDLER,
        194 => SyntaxKind::TRUSTED,
        195 => SyntaxKind::INLINE_P,
        196 => SyntaxKind::VALIDATOR,
        197 => SyntaxKind::PROCEDURAL,
        198 => SyntaxKind::LOCATION,
        199 => SyntaxKind::EXTENSION,
        200 => SyntaxKind::VERSION_P,
        201 => SyntaxKind::AGGREGATE,
        202 => SyntaxKind::CAST,
        203 => SyntaxKind::DOMAIN_P,
        204 => SyntaxKind::FUNCTION,
        205 => SyntaxKind::CLASS,
        206 => SyntaxKind::FAMILY,
        207 => SyntaxKind::PROCEDURE,
        208 => SyntaxKind::ROUTINE,
        209 => SyntaxKind::TRANSFORM,
        210 => SyntaxKind::WRAPPER,
        211 => SyntaxKind::SERVER,
        212 => SyntaxKind::IMPORT_P,
        213 => SyntaxKind::INTO,
        214 => SyntaxKind::EXCEPT,
        215 => SyntaxKind::MAPPING,
        216 => SyntaxKind::POLICY,
        217 => SyntaxKind::SELECT,
        218 => SyntaxKind::INSERT,
        219 => SyntaxKind::EXECUTE,
        220 => SyntaxKind::AFTER,
        221 => SyntaxKind::EACH,
        222 => SyntaxKind::BEFORE,
        223 => SyntaxKind::INSTEAD,
        224 => SyntaxKind::OR,
        225 => SyntaxKind::TRUNCATE,
        226 => SyntaxKind::REFERENCING,
        227 => SyntaxKind::NEW,
        228 => SyntaxKind::OLD,
        229 => SyntaxKind::STATEMENT,
        230 => SyntaxKind::WHEN,
        231 => SyntaxKind::EVENT,
        232 => SyntaxKind::AND,
        233 => SyntaxKind::SCONST,
        234 => SyntaxKind::ASSERTION,
        235 => SyntaxKind::ENUM_P,
        236 => SyntaxKind::RANGE,
        237 => SyntaxKind::TEXT_P,
        238 => SyntaxKind::SEARCH,
        239 => SyntaxKind::PARSER,
        240 => SyntaxKind::DICTIONARY,
        241 => SyntaxKind::TEMPLATE,
        242 => SyntaxKind::CONFIGURATION,
        243 => SyntaxKind::COLLATION,
        244 => SyntaxKind::NONE,
        245 => SyntaxKind::VALUE_P,
        246 => SyntaxKind::RENAME,
        247 => SyntaxKind::ORDER,
        248 => SyntaxKind::RECHECK,
        249 => SyntaxKind::REASSIGN,
        250 => SyntaxKind::CONVERSION_P,
        251 => SyntaxKind::SUBSCRIPTION,
        252 => SyntaxKind::PUBLICATION,
        253 => SyntaxKind::CONTINUE_P,
        254 => SyntaxKind::COMMENT,
        255 => SyntaxKind::IS,
        _ => kind_from_256(c),
    }
}

/// The kind with the number `c`, for the numbers from 128 on.
fn kind_from_128(c: u32) -> (kind: SyntaxKind)
    ensures
        kind == spec_kind_from_128(c),
{
    match c {
        128 => SyntaxKind::FOR,
        129 => SyntaxKind::VALUES,
        130 => SyntaxKind::ATTRIBUTE,
        131 => SyntaxKind::CLOSE,
        132 => SyntaxKind::COPY,
        133 => SyntaxKind::PROGRAM,
        134 => SyntaxKind::STDIN,
        135 => SyntaxKind::STDOUT,
        136 => SyntaxKind::BINARY,
        137 => SyntaxKind::FREEZE,
        138 => SyntaxKind::DELIMITER,
        139 => SyntaxKind::CSV,
        140 => SyntaxKind::HEADER_P,
        141 => SyntaxKind::QUOTE,
        142 => SyntaxKind::ESCAPE,
        143 => SyntaxKind::Star,
        144 => SyntaxKind::ENCODING,
        145 => SyntaxKind::DELIMITERS,
        146 => SyntaxKind::GLOBAL,
        147 => SyntaxKind::OPTIONS,
        148 => SyntaxKind::COMPRESSION,
        149 => SyntaxKind::STORAGE,
        150 => SyntaxKind::UNIQUE,
        151 => SyntaxKind::PRIMARY,
        152 => SyntaxKind::KEY,
        153 => SyntaxKind::CHECK,
        154 => SyntaxKind::STORED,
        155 => SyntaxKind::REFERENCES,
        156 => SyntaxKind::NULLS_P,
        157 => SyntaxKind::DISTINCT,
        158 => SyntaxKind::DEFERRABLE,
        159 => SyntaxKind::INITIALLY,
        160 => SyntaxKind::LIKE,
        161 => SyntaxKind::INCLUDING,
        162 => SyntaxKind::EXCLUDING,
        163 => SyntaxKind::COMMENTS,
        164 => SyntaxKind::DEFAULTS,
        165 => SyntaxKind::INDEXES,
        166 => SyntaxKind::EXCLUDE,
        167 => SyntaxKind::INCLUDE,
        168 => SyntaxKind::MATCH,
        169 => SyntaxKind::PARTIAL,
        170 => SyntaxKind::SIMPLE,
        171 => SyntaxKind::OPERATOR,
        172 => SyntaxKind::WHERE,
        173 => SyntaxKind::UPDATE,
        174 => SyntaxKind::DELETE_P,
        175 => SyntaxKind::ACTION,
        176 => SyntaxKind::INHERITS,
        177 => SyntaxKind::COMMIT,
        178 => SyntaxKind::ROWS,
        179 => SyntaxKind::PRESERVE,
        180 => SyntaxKind::DATA_P,
        181 => SyntaxKind::REFRESH,
        182 => SyntaxKind::CACHE,
        183 => SyntaxKind::CYCLE,
        184 => SyntaxKind::INCREMENT,
        185 => SyntaxKind::MAXVALUE,
        186 => SyntaxKind::MINVALUE,
        187 => SyntaxKind::NAME_P,
        188 => SyntaxKind::START,
        189 => SyntaxKind::FCONST,
        190 => SyntaxKind::Plus,
        191 => SyntaxKind::Minus,
        _ => kind_from_192(c),
    }
}

/// The kind with the number `c`, for the numbers from 64 on.
fn kind_from_64(c: u32) -> (kind: SyntaxKind)
    ensures
        kind == spec_kind_from_64(c),
{
    match c {
        64 => SyntaxKind::SERIALIZABLE,
        65 => SyntaxKind::TRUE_P,
        66 => SyntaxKind::FALSE_P,
        67 => SyntaxKind::ON,
        68 => SyntaxKind::LParen,
        69 => SyntaxKind::RParen,
        70 => SyntaxKind::RESET,
        71 => SyntaxKind::ISOLATION,
        72 => SyntaxKind::LEVEL,
        73 => SyntaxKind::SHOW,
        74 => SyntaxKind::CONSTRAINTS,
        75 => SyntaxKind::DEFERRED,
        76 => SyntaxKind::IMMEDIATE,
        77 => SyntaxKind::CHECKPOINT,
        78 => SyntaxKind::DISCARD,
        79 => SyntaxKind::TEMP,
        80 => SyntaxKind::TEMPORARY,
        81 => SyntaxKind::PLANS,
        82 => SyntaxKind::SEQUENCES,
        83 => SyntaxKind::TABLE,
        84 => SyntaxKind::TABLESPACE,
        85 => SyntaxKind::OWNED,
        86 => SyntaxKind::BY,
        87 => SyntaxKind::INDEX,
        88 => SyntaxKind::SEQUENCE,
        89 => SyntaxKind::VIEW,
        90 => SyntaxKind::MATERIALIZED,
        91 => SyntaxKind::FOREIGN,
        92 => SyntaxKind::ATTACH,
        93 => SyntaxKind::PARTITION,
        94 => SyntaxKind::DETACH,
        95 => SyntaxKind::FINALIZE,
        96 => SyntaxKind::COLUMN,
        97 => SyntaxKind::EXPRESSION,
        98 => SyntaxKind::STATISTICS,
        99 => SyntaxKind::GENERATED,
        100 => SyntaxKind::IDENTITY_P,
        101 => SyntaxKind::TYPE_P,
        102 => SyntaxKind::CONSTRAINT,
        103 => SyntaxKind::VALIDATE,
        104 => SyntaxKind::WITHOUT,
        105 => SyntaxKind::OIDS,
        106 => SyntaxKind::CLUSTER,
        107 => SyntaxKind::LOGGED,
        108 => SyntaxKind::UNLOGGED,
        109 => SyntaxKind::ENABLE_P,
        110 => SyntaxKind::TRIGGER,
        111 => SyntaxKind::ALWAYS,
        112 => SyntaxKind::REPLICA,
        113 => SyntaxKind::DISABLE_P,
        114 => SyntaxKind::RULE,
        115 => SyntaxKind::NO,
        116 => SyntaxKind::OF,
        117 => SyntaxKind::OWNER,
        118 => SyntaxKind::ACCESS,
        119 => SyntaxKind::METHOD,
        120 => SyntaxKind::ROW,
        121 => SyntaxKind::SECURITY,
        122 => SyntaxKind::FORCE,
        123 => SyntaxKind::COLLATE,
        124 => SyntaxKind::USING,
        125 => SyntaxKind::NOTHING,
        126 => SyntaxKind::FULL,
        127 => SyntaxKind::RESTART,
        _ => kind_from_128(c),
    }
}

/// The kind with the number `c`, for the numbers from 0 on.
fn kind_from_0(c: u32) -> (kind: SyntaxKind)
    ensures
        kind == spec_kind_from_0(c),
{
    match c {
        0 => SyntaxKind::MODE_TYPE_NAME,
        1 => SyntaxKind::MODE_PLPGSQL_EXPR,
        2 => SyntaxKind::MODE_PLPGSQL_ASSIGN1,
        3 => SyntaxKind::MODE_PLPGSQL_ASSIGN2,
        4 => SyntaxKind::MODE_PLPGSQL_ASSIGN3,
        5 => SyntaxKind::Semicolon,
        6 => SyntaxKind::CONCURRENTLY,
        7 => SyntaxKind::CASCADE,
        8 => SyntaxKind::RESTRICT,
        9 => SyntaxKind::CALL,
        10 => SyntaxKind::CREATE,
        11 => SyntaxKind::ROLE,
        12 => SyntaxKind::WITH,
        13 => SyntaxKind::WITH_LA,
        14 => SyntaxKind::PASSWORD,
        15 => SyntaxKind::PARAM,
        16 => SyntaxKind::NULL_P,
        17 => SyntaxKind::ENCRYPTED,
        18 => SyntaxKind::UNENCRYPTED,
        19 => SyntaxKind::INHERIT,
        20 => SyntaxKind::CONNECTION,
        21 => SyntaxKind::LIMIT,
        22 => SyntaxKind::VALID,
        23 => SyntaxKind::UNTIL,
        24 => SyntaxKind::USER,
        25 => SyntaxKind::IDENT,
        26 => SyntaxKind::SYSID,
        27 => SyntaxKind::ADMIN,
        28 => SyntaxKind::IN_P,
        29 => SyntaxKind::GROUP_P,
        30 => SyntaxKind::ALTER,
        31 => SyntaxKind::DATABASE,
        32 => SyntaxKind::ALL,
        33 => SyntaxKind::DROP,
        34 => SyntaxKind::IF_P,
        35 => SyntaxKind::EXISTS,
        36 => SyntaxKind::ADD_P,
        37 => SyntaxKind::SCHEMA,
        38 => SyntaxKind::AUTHORIZATION,
        39 => SyntaxKind::NOT,
        40 => SyntaxKind::SET,
        41 => SyntaxKind::LOCAL,
        42 => SyntaxKind::SESSION,
        43 => SyntaxKind::TRANSACTION,
        44 => SyntaxKind::CHARACTERISTICS,
        45 => SyntaxKind::AS,
        46 => SyntaxKind::TO,
        47 => SyntaxKind::Equals,
        48 => SyntaxKind::DEFAULT,
        49 => SyntaxKind::FROM,
        50 => SyntaxKind::CURRENT_P,
        51 => SyntaxKind::TIME,
        52 => SyntaxKind::ZONE,
        53 => SyntaxKind::CATALOG_P,
        54 => SyntaxKind::NAMES,
        55 => SyntaxKind::XML_P,
        56 => SyntaxKind::OPTION,
        57 => SyntaxKind::SNAPSHOT,
        58 => SyntaxKind::Dot,
        59 => SyntaxKind::Comma,
        60 => SyntaxKind::READ,
        61 => SyntaxKind::UNCOMMITTED,
        62 => SyntaxKind::COMMITTED,
        63 => SyntaxKind::REPEATABLE,
        _ => kind_from_64(c),
    }
}

impl SyntaxKind {
    /// The kind with a number: the kind at that position of the
    /// declaration, and `Root` for a number beyond the last.
    pub open spec fn spec_from_code(c: u32) -> SyntaxKind {
        spec_kind_from_0(c)
    }

    /// Whether this is the kind of a comment.
    pub fn is_comment(self) -> (b: bool)
        ensures
            b == (self == SyntaxKind::C_COMMENT || self == SyntaxKind::SQL_COMMENT),
    {
        self == SyntaxKind::C_COMMENT || self == SyntaxKind::SQL_COMMENT
    }
}

impl cstree::Syntax for SyntaxKind {
    /// The kind with a number. `cstree` hands back the numbers that
    /// `into_raw` gave; a number beyond the last gives `Root`.
    fn from_raw(raw: cstree::RawSyntaxKind) -> (kind: SyntaxKind)
        ensures
            kind == SyntaxKind::spec_from_code(raw.0),
    {
        kind_from_0(raw.0)
    }

    /// The number of a kind: its position in the declaration. `from_raw`
    /// gives the kind back.
    fn into_raw(self) -> (raw: cstree::RawSyntaxKind)
        ensures
            raw.0 < KIND_COUNT,
            SyntaxKind::spec_from_code(raw.0) == self,
    {
        match code_from_0(self) {
            Some(c) => cstree::RawSyntaxKind(c),
            // no kind comes before the first
            None => cstree::RawSyntaxKind(0),
        }
    }

    /// No kind has a fixed text.
    fn static_text(self) -> (text: Option<&'static str>)
        ensures
            text is None,
    {
        None
    }
}

} // verus!
