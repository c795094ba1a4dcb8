use cwmp_typed::body::{BodyType, BodyTypeContent};
use cwmp_typed::envelope::{Envelope, EnvelopeBody, EnvelopeHeader, EnvelopeHeaders};
use cwmp_typed::error::CwmpError;
use cwmp_typed::fault::{CwmpFault, Fault, SetParameterValuesFault};
use cwmp_typed::header::{HeaderType, HeaderTypeContent, Id, SessionTimeout, UseCwmpVersion};
use cwmp_typed::path::{classify, ParameterName, PathKind};
use cwmp_typed::request::{
    GetParameterValues, ParameterList, ParameterValueStruct, ParameterValueStructValue, Request,
    SetParameterValues,
};
use cwmp_typed::response::{Response, SetParameterValuesResponse};
use cwmp_typed::text::{format_decimal, parse_u32};
use cwmp_typed::xml::{XmlAttribute, XmlElement, XmlNode};
use xsd_parser_types::quick_xml::{BytesText, DeserializeSync, SerializeSync, SliceReader, Writer};
use xsd_parser_types::xml::{AnyElement, Value};

fn normalize_xml(s: &str) -> String {
    s.lines()
        .map(|line| line.trim())
        .filter(|line| !line.is_empty())
        .collect::<Vec<_>>()
        .join("")
}

fn to_any(e: &XmlElement) -> AnyElement {
    let mut a = AnyElement::new().name(e.name.clone().into_bytes());
    for attr in &e.attributes {
        a = a.attribute(attr.name.clone().into_bytes(), attr.value.clone().into_bytes());
    }
    for child in &e.children {
        a = a.child(match child {
            XmlNode::Element(x) => Value::Element(to_any(x)),
            XmlNode::Text(t) => Value::Text(BytesText::new(t).into_owned()),
        });
    }
    a
}

fn from_any(a: &AnyElement) -> XmlElement {
    let text = |b: &[u8]| {
        let raw = String::from_utf8_lossy(b).into_owned();
        quick_xml::escape::unescape(&raw).unwrap().into_owned()
    };
    XmlElement {
        name: String::from_utf8_lossy(&a.name).into_owned(),
        attributes: a
            .attributes
            .0
            .iter()
            .map(|(k, v)| XmlAttribute { name: text(&k.0), value: text(&v.0) })
            .collect(),
        children: a
            .values
            .iter()
            .filter_map(|v| match v {
                Value::Element(x) => Some(XmlNode::Element(from_any(x))),
                Value::Text(t) => Some(XmlNode::Text(text(t))),
                _ => None,
            })
            .collect(),
    }
}

fn parse(xml: &str) -> XmlElement {
    let mut reader = SliceReader::new(xml.trim());
    let any = AnyElement::deserialize(&mut reader).unwrap();
    from_any(&any)
}

fn render(e: &XmlElement, root: &str) -> String {
    let mut writer = Writer::new_with_indent(Vec::new(), b'\t', 1);
    to_any(e).serialize(root, &mut writer).unwrap();
    String::from_utf8(writer.into_inner()).unwrap()
}

fn child<'a>(e: &'a XmlElement, local: &str) -> &'a XmlElement {
    e.child(local).unwrap()
}

#[test]
fn test_header_parse() {
    let request = r#"
    <soap:Envelope
    xmlns:soap="http://schemas.xmlsoap.org/soap/envelope/"
    xmlns:cwmp="urn:dslforum-org:cwmp-1-2">
        <soap:Header>
                <cwmp:ID soap:mustUnderstand="1">1234</cwmp:ID>
                <cwmp:SessionTimeout soap:mustUnderstand="0">40</cwmp:SessionTimeout>
        </soap:Header>
        <soap:Body>
            <cwmp:Action>
            <argument>value</argument>
            </cwmp:Action>
        </soap:Body>
    </soap:Envelope>
"#;

    let env = parse(request);
    let header = HeaderType::from_element(child(&env, "Header")).unwrap();

    match &header.content[0] {
        HeaderTypeContent::Id(Id { must_understand, content }) => {
            assert_eq!(*must_understand, true);
            assert_eq!(content, "1234");
        }
        _ => panic!("Expected HeaderTypeContent::Id variant"),
    };
    match &header.content[1] {
        HeaderTypeContent::SessionTimeout(SessionTimeout { must_understand, content }) => {
            assert_eq!(*must_understand, Some(false));
            assert_eq!(*content, 40);
        }
        _ => panic!("Expected HeaderTypeContent::SessionTimeout variant"),
    }
}

#[test]
fn test_body_parse() {
    let request = r#"
<soap:Envelope
xmlns:soap="http://schemas.xmlsoap.org/soap/envelope/"
xmlns:cwmp="urn:dslforum-org:cwmp-1-0">
    <soap:Header>
    <cwmp:ID soap:mustUnderstand="1">1234</cwmp:ID>
    </soap:Header>
    <soap:Body>
        <soap:Fault>
            <faultcode>Client</faultcode>
            <faultstring>CWMP fault</faultstring>
            <detail>
                <cwmp:Fault>
                    <FaultCode>9003</FaultCode>
                    <FaultString>Invalid arguments</FaultString>
                    <SetParameterValuesFault>
                        <ParameterName>
                        Device.Time.NTPServer1
                        </ParameterName>
                        <FaultCode>9007</FaultCode>
                        <FaultString>Invalid IP Address</FaultString>
                    </SetParameterValuesFault>
                    <SetParameterValuesFault>
                        <ParameterName>
                        Device.Time.LocalTimeZoneName
                        </ParameterName>
                        <FaultCode>9007</FaultCode>
                        <FaultString>String too long</FaultString>
                    </SetParameterValuesFault>
                </cwmp:Fault>
            </detail>
        </soap:Fault>
    </soap:Body>
</soap:Envelope>
"#;

    let env = Envelope::from_element(&parse(request)).unwrap();
    let EnvelopeBody::Fault(fault) = &env.body else {
        panic!("expected a fault body")
    };
    assert_eq!(fault.fault_code, "Client");
    assert_eq!(fault.fault_string, "CWMP fault");
    let detail = fault.detail.as_ref().unwrap();
    assert_eq!(detail.fault_code, 9003);
    assert_eq!(detail.fault_string, "Invalid arguments");
    let subs = &detail.set_parameter_values_fault;
    assert_eq!(subs.len(), 2);
    assert_eq!(subs[0].parameter_name.trim(), "Device.Time.NTPServer1");
    assert_eq!(subs[0].fault_code, 9007);
    assert_eq!(subs[0].fault_string, "Invalid IP Address");
    assert_eq!(subs[1].parameter_name.trim(), "Device.Time.LocalTimeZoneName");
    assert_eq!(subs[1].fault_code, 9007);
    assert_eq!(subs[1].fault_string, "String too long");
}

#[test]
fn test_body_rpc_parse() {
    let request = r#"
<soap-env:Envelope xmlns:soap-enc="http://schemas.xmlsoap.org/soap/encoding/"
xmlns:soap-env="http://schemas.xmlsoap.org/soap/envelope/"
xmlns:xsd="http://www.w3.org/2001/XMLSchema"
xmlns:xsi="http://www.w3.org/2001/XMLSchema-instance"
xmlns:cwmp="urn:dslforum-org:cwmp-1-2">
<soap-env:Header>
<cwmp:ID soap-env:mustUnderstand="1">0</cwmp:ID>
</soap-env:Header>
<soap-env:Body>
<cwmp:GetParameterNames>
<ParameterPath>Object.</ParameterPath>
<NextLevel>0</NextLevel>
</cwmp:GetParameterNames>
</soap-env:Body>
</soap-env:Envelope>
        "#;

    let root = parse(request);
    let body = BodyType::from_element(child(&root, "Body")).unwrap();
    assert_eq!(body.content.len(), 1);
    assert!(matches!(&body.content[0], BodyTypeContent::Other(n) if n == "cwmp:GetParameterNames"));
    let env = Envelope::from_element(&root).unwrap();
    assert!(matches!(env.body, EnvelopeBody::Response(Response::NoContent)));
}

#[test]
fn test_methodlist_parse() {
    let request = r#"
<soap:Envelope xmlns:soap="http://schemas.xmlsoap.org/soap/envelope/"
               xmlns:cwmp="urn:dslforum-org:cwmp-1-2">
  <soap:Header/>
  <soap:Body>
    <cwmp:GetRPCMethodsResponse>
      <MethodList soap-enc:arrayType="xsd:string[7]"
                  xmlns:soap-enc="http://schemas.xmlsoap.org/soap/encoding/">
        <string>GetRPCMethods</string>
        <string>SetParameterValues</string>
        <string>GetParameterValues</string>
        <string>GetParameterNames</string>
        <string>SetParameterAttributes</string>
        <string>GetParameterAttributes</string>
        <string>AddObject</string>
        <string>DeleteObject</string>
        <string>Download</string>
        <string>Upload</string>
        <string>Reboot</string>
        <string>FactoryReset</string>
      </MethodList>
    </cwmp:GetRPCMethodsResponse>
  </soap:Body>
</soap:Envelope>

        "#;

    let root = parse(request);
    let header = HeaderType::from_element(child(&root, "Header")).unwrap();
    assert!(header.content.is_empty());
    let body = BodyType::from_element(child(&root, "Body")).unwrap();
    assert_eq!(body.content.len(), 1);
    assert!(matches!(&body.content[0], BodyTypeContent::Other(n) if n == "cwmp:GetRPCMethodsResponse"));
}

#[test]
fn test_set_parameter_values_type() {
    let request = r#"
            <soap:Envelope xmlns:soap="http://schemas.xmlsoap.org/soap/envelope/"
               xmlns:cwmp="urn:dslforum-org:cwmp-1-0">
  <soap:Header/>
  <soap:Body>
    <cwmp:SetParameterValues>
      <ParameterList soap-enc:arrayType="cwmp:ParameterValueStruct[2]"
                     xmlns:soap-enc="http://schemas.xmlsoap.org/soap/encoding/">
        <ParameterValueStruct>
          <Name>InternetGatewayDevice.ManagementServer.URL</Name>
          <Value xsi:type="xsd:string">https://acs.example.com:7547</Value>
        </ParameterValueStruct>
        <ParameterValueStruct>
          <Name>InternetGatewayDevice.ManagementServer.PeriodicInformEnable</Name>
          <Value xsi:type="xsd:boolean">true</Value>
        </ParameterValueStruct>
      </ParameterList>
      <ParameterKey>BOOTSTRAP_2026-01-11T14:11+05:45</ParameterKey>
    </cwmp:SetParameterValues>
  </soap:Body>
</soap:Envelope>

        "#;

    let root = parse(request);
    let body = BodyType::from_element(child(&root, "Body")).unwrap();
    assert_eq!(body.content.len(), 1);
    assert!(matches!(&body.content[0], BodyTypeContent::Other(n) if n == "cwmp:SetParameterValues"));
    // An envelope without an ID header is rejected.
    assert!(matches!(Envelope::from_element(&root), Err(CwmpError::MissingId)));
}

#[test]
fn envelope_set_parameter_values_serialization() {
    let headers = vec![EnvelopeHeader::Id(Id {
        must_understand: false,
        content: "XYZ".to_string(),
    })];
    let headers = EnvelopeHeaders(headers);

    let body = EnvelopeBody::Request(Request::SetParameterValues(SetParameterValues {
        parameter_list: ParameterList(vec![ParameterValueStruct {
            name: "PQR".to_string(),
            value: ParameterValueStructValue {
                type_: "string".to_string(),
                value: "MNO".to_string(),
            },
        }]),
        parameter_key: "ABC".to_string(),
    }));

    let envelope = Envelope { headers, body };
    assert!(envelope.has_id());

    let xml = render(&envelope.into_element().unwrap(), "soap:Envelope");
    let expected = r#"
<soap:Envelope xmlns:soap="http://schemas.xmlsoap.org/soap/envelope/" xmlns:soapenc="http://schemas.xmlsoap.org/soap/encoding/" xmlns:xsd="http://www.w3.org/2001/XMLSchema" xmlns:xsi="http://www.w3.org/2001/XMLSchema-instance">
    <soap:Header>
        <cwmp:ID soap:mustUnderstand="0">XYZ</cwmp:ID>
    </soap:Header>
    <soap:Body>
        <cwmp:SetParameterValues>
            <ParameterList soapenc:arrayType="cwmp:ParameterValueStruct[1]">
                <ParameterValueStruct>
                    <Name>PQR</Name>
                    <Value xsi:type="xsd:string">MNO</Value>
                </ParameterValueStruct>
            </ParameterList>
            <ParameterKey>ABC</ParameterKey>
        </cwmp:SetParameterValues>
    </soap:Body>
</soap:Envelope>"#;

    assert_eq!(normalize_xml(&xml), normalize_xml(expected));
}

#[test]
fn schema_envelope_type_to_envelope() {
    let request = r#"
<soap-env:Envelope
        xmlns:soap-enc="http://schemas.xmlsoap.org/soap/encoding/"
        xmlns:soap-env="http://schemas.xmlsoap.org/soap/envelope/"
        xmlns:xsd="http://www.w3.org/2001/XMLSchema"
        xmlns:xsi="http://www.w3.org/2001/XMLSchema-instance"
        xmlns:cwmp="urn:dslforum-org:cwmp-1-2">
    <soap-env:Header>
        <cwmp:ID soap-env:mustUnderstand="1">0</cwmp:ID>
    </soap-env:Header>
    <soap-env:Body>
        <cwmp:SetParameterValuesResponse>
            <Status>1</Status>
        </cwmp:SetParameterValuesResponse>
    </soap-env:Body>
</soap-env:Envelope>
"#;

    let env = Envelope::from_element(&parse(request)).unwrap();
    assert!(env.has_id());

    let EnvelopeHeader::Id(header) = &env.headers.0[0] else {
        panic!()
    };
    assert!(header.must_understand);
    assert!(header.content == "0".to_string());

    let EnvelopeBody::Response(Response::SetParameterValuesResponse(response)) = &env.body else {
        panic!()
    };
    assert!(response.status);
}

#[test]
fn parse_get_parameter_values() {
    let request = GetParameterValues::new()
        .with_parameter("Device.DeviceInfo.".to_string())
        .unwrap()
        .with_parameter(
            "Device.WANDevice.*.WANConnectionDevice.1.WANIPConnection.1.ExternalIPAddress",
        )
        .unwrap()
        .with_parameter(
            "Device.WANDevice.1.WANConnectionDevice.1.WANIPConnection.1.ExternalIPAddress",
        )
        .unwrap();

    let body = XmlElement::new("soap:Body").with_child(request.into_element());
    let xml = render(&body, "soap:Body");
    let expected = r#"
    <soap:Body>
        <cwmp:GetParameterValues>
            <ParameterNames soapenc:arrayType="xsd:string[3]">
                <string>Device.DeviceInfo.</string>
                <string>Device.WANDevice.*.WANConnectionDevice.1.WANIPConnection.1.ExternalIPAddress</string>
                <string>Device.WANDevice.1.WANConnectionDevice.1.WANIPConnection.1.ExternalIPAddress</string>
            </ParameterNames>
        </cwmp:GetParameterValues>
    </soap:Body>
        "#;

    assert!(normalize_xml(&xml) == normalize_xml(&expected));
}

#[test]
fn classify_examples() {
    assert_eq!(classify("Device.DeviceInfo."), Ok(PathKind::Partial));
    assert_eq!(classify("Device.WANDevice.*.WANConnectionDevice.1"), Ok(PathKind::WildCard));
    assert_eq!(classify("Device.DeviceInfo.Manufacturer"), Ok(PathKind::Full));
    assert_eq!(classify("Device.*"), Err(CwmpError::InvalidPath));
    assert_eq!(classify("Device.*."), Err(CwmpError::InvalidPath));
    assert_eq!(classify("Device.*.Stats."), Ok(PathKind::Partial));
    assert_eq!(classify(""), Ok(PathKind::Full));
}

#[test]
fn parameter_name_keeps_path_and_kind() {
    let p = ParameterName::try_from("Device.WANDevice.*.Name".to_string()).unwrap();
    assert_eq!(p.kind(), PathKind::WildCard);
    assert_eq!(p.inner(), "Device.WANDevice.*.Name");
    assert!(matches!(
        ParameterName::try_from("Device.WANDevice.*".to_string()),
        Err(CwmpError::InvalidPath)
    ));
    assert!(matches!(
        GetParameterValues::new().with_parameter("Device.*."),
        Err(CwmpError::InvalidPath)
    ));
}

#[test]
fn header_fixture_decodes_to_domain_headers() {
    let header = parse(
        r#"<soap:Header xmlns:soap="http://schemas.xmlsoap.org/soap/envelope/" xmlns:cwmp="urn:dslforum-org:cwmp-1-2"><cwmp:ID mustUnderstand="1">1234</cwmp:ID><cwmp:SessionTimeout mustUnderstand="0">40</cwmp:SessionTimeout></soap:Header>"#,
    );
    let headers = EnvelopeHeaders::from_element(&header).unwrap();
    assert_eq!(headers.0.len(), 2);
    assert!(matches!(&headers.0[0], EnvelopeHeader::Id(Id { must_understand: true, content }) if content == "1234"));
    assert!(matches!(
        &headers.0[1],
        EnvelopeHeader::SessionTimeout(SessionTimeout { must_understand: Some(false), content: 40 })
    ));
}

#[test]
fn header_round_trip_keeps_order_and_repeats() {
    let headers = EnvelopeHeaders(vec![
        EnvelopeHeader::SessionTimeout(SessionTimeout { must_understand: None, content: 4294967295 }),
        EnvelopeHeader::Id(Id { must_understand: true, content: "a<b".to_string() }),
        EnvelopeHeader::UseCwmpVersion(UseCwmpVersion { must_understand: Some(true), content: "1.2".to_string() }),
        EnvelopeHeader::Id(Id { must_understand: false, content: String::new() }),
    ]);
    let element = headers.into_element();
    let decoded = EnvelopeHeaders::from_element(&element).unwrap();
    assert_eq!(decoded.0.len(), 4);
    assert!(matches!(&decoded.0[0], EnvelopeHeader::SessionTimeout(SessionTimeout { must_understand: None, content: 4294967295 })));
    assert!(matches!(&decoded.0[1], EnvelopeHeader::Id(Id { must_understand: true, content }) if content == "a<b"));
    assert!(matches!(&decoded.0[2], EnvelopeHeader::UseCwmpVersion(UseCwmpVersion { must_understand: Some(true), content }) if content == "1.2"));
    assert!(matches!(&decoded.0[3], EnvelopeHeader::Id(Id { must_understand: false, content }) if content.is_empty()));
}

#[test]
fn header_errors() {
    let no_flag = parse(r#"<soap:Header xmlns:cwmp="urn:x"><cwmp:ID>1</cwmp:ID></soap:Header>"#);
    assert!(matches!(EnvelopeHeaders::from_element(&no_flag), Err(CwmpError::MissingElement)));
    let bad_flag = parse(r#"<soap:Header xmlns:cwmp="urn:x"><cwmp:ID mustUnderstand="yes">1</cwmp:ID></soap:Header>"#);
    assert!(matches!(EnvelopeHeaders::from_element(&bad_flag), Err(CwmpError::InvalidValue)));
    let bad_timeout = parse(r#"<soap:Header xmlns:cwmp="urn:x"><cwmp:SessionTimeout>4294967296</cwmp:SessionTimeout></soap:Header>"#);
    assert!(matches!(EnvelopeHeaders::from_element(&bad_timeout), Err(CwmpError::InvalidValue)));
    let unknown = parse(r#"<soap:Header xmlns:cwmp="urn:x"><cwmp:HoldRequests mustUnderstand="1">0</cwmp:HoldRequests></soap:Header>"#);
    assert_eq!(EnvelopeHeaders::from_element(&unknown).unwrap().0.len(), 0);
}

#[test]
fn set_parameter_values_response_status() {
    let one = parse(r#"<cwmp:SetParameterValuesResponse xmlns:cwmp="urn:x"><Status>1</Status></cwmp:SetParameterValuesResponse>"#);
    assert!(SetParameterValuesResponse::from_element(&one).unwrap().status);
    let zero = parse(r#"<cwmp:SetParameterValuesResponse xmlns:cwmp="urn:x"><Status>0</Status></cwmp:SetParameterValuesResponse>"#);
    assert!(!SetParameterValuesResponse::from_element(&zero).unwrap().status);
    let two = parse(r#"<cwmp:SetParameterValuesResponse xmlns:cwmp="urn:x"><Status>2</Status></cwmp:SetParameterValuesResponse>"#);
    assert!(matches!(SetParameterValuesResponse::from_element(&two), Err(CwmpError::InvalidValue)));
    let none = parse(r#"<cwmp:SetParameterValuesResponse xmlns:cwmp="urn:x"></cwmp:SetParameterValuesResponse>"#);
    assert!(matches!(SetParameterValuesResponse::from_element(&none), Err(CwmpError::MissingElement)));
}

#[test]
fn first_known_body_alternative_wins() {
    let root = parse(
        r#"<soap:Envelope xmlns:soap="http://schemas.xmlsoap.org/soap/envelope/" xmlns:cwmp="urn:dslforum-org:cwmp-1-2"><soap:Header><cwmp:ID soap:mustUnderstand="1">7</cwmp:ID></soap:Header><soap:Body><cwmp:Inform/><cwmp:SetParameterValuesResponse><Status>0</Status></cwmp:SetParameterValuesResponse><cwmp:SetParameterValuesResponse><Status>1</Status></cwmp:SetParameterValuesResponse></soap:Body></soap:Envelope>"#,
    );
    let env = Envelope::from_element(&root).unwrap();
    let EnvelopeBody::Response(Response::SetParameterValuesResponse(r)) = &env.body else {
        panic!("expected a SetParameterValuesResponse")
    };
    assert!(!r.status);
}

#[test]
fn alternatives_after_the_first_known_one_are_ignored() {
    let root = parse(
        r#"<soap:Envelope xmlns:soap="http://schemas.xmlsoap.org/soap/envelope/" xmlns:cwmp="urn:dslforum-org:cwmp-1-2"><soap:Header><cwmp:ID soap:mustUnderstand="1">7</cwmp:ID></soap:Header><soap:Body><cwmp:SetParameterValuesResponse><Status>1</Status></cwmp:SetParameterValuesResponse><soap:Fault><faultcode>Client</faultcode></soap:Fault></soap:Body></soap:Envelope>"#,
    );
    let body = BodyType::from_element(child(&root, "Body")).unwrap();
    assert_eq!(body.content.len(), 1);
    let env = Envelope::from_element(&root).unwrap();
    assert!(matches!(env.body, EnvelopeBody::Response(Response::SetParameterValuesResponse(SetParameterValuesResponse { status: true }))));
}

#[test]
fn get_parameter_values_response_decodes_values() {
    let root = parse(
        r#"<soap:Envelope xmlns:soap="http://schemas.xmlsoap.org/soap/envelope/" xmlns:cwmp="urn:dslforum-org:cwmp-1-0" xmlns:xsi="http://www.w3.org/2001/XMLSchema-instance"><soap:Header><cwmp:ID soap:mustUnderstand="1">1234567890</cwmp:ID></soap:Header><soap:Body><cwmp:GetParameterValuesResponse><ParameterList soap:arrayType="cwmp:ParameterValueStruct[1]"><ParameterValueStruct><Name>InternetGatewayDevice.DeviceInfo.Manufacturer</Name><Value xsi:type="xsd:string">ExampleManufacturer</Value></ParameterValueStruct></ParameterList></cwmp:GetParameterValuesResponse></soap:Body></soap:Envelope>"#,
    );
    let env = Envelope::from_element(&root).unwrap();
    let EnvelopeBody::Response(Response::GetParameterValuesResponse(r)) = &env.body else {
        panic!("expected a GetParameterValuesResponse")
    };
    assert_eq!(r.parameter_list.len(), 1);
    assert_eq!(r.parameter_list[0].name, "InternetGatewayDevice.DeviceInfo.Manufacturer");
    assert_eq!(r.parameter_list[0].value, "ExampleManufacturer");
}

#[test]
fn envelope_errors() {
    let no_body = parse(r#"<soap:Envelope xmlns:soap="urn:s" xmlns:cwmp="urn:c"><soap:Header><cwmp:ID mustUnderstand="1">1</cwmp:ID></soap:Header></soap:Envelope>"#);
    assert!(matches!(Envelope::from_element(&no_body), Err(CwmpError::MissingElement)));
    let no_header = parse(r#"<soap:Envelope xmlns:soap="urn:s"><soap:Body/></soap:Envelope>"#);
    assert!(matches!(Envelope::from_element(&no_header), Err(CwmpError::MissingId)));
    let bad_fault = parse(r#"<soap:Envelope xmlns:soap="urn:s" xmlns:cwmp="urn:c"><soap:Header><cwmp:ID mustUnderstand="1">1</cwmp:ID></soap:Header><soap:Body><soap:Fault><faultcode>Client</faultcode></soap:Fault></soap:Body></soap:Envelope>"#);
    assert!(matches!(Envelope::from_element(&bad_fault), Err(CwmpError::MissingElement)));
}

#[test]
fn request_body_holds_one_named_element_with_count() {
    let list: Vec<ParameterValueStruct> = (0..12)
        .map(|i| ParameterValueStruct {
            name: format!("Device.X.{i}"),
            value: ParameterValueStructValue { type_: "int".to_string(), value: format!("{i}") },
        })
        .collect();
    let body = EnvelopeBody::Request(Request::SetParameterValues(SetParameterValues {
        parameter_list: ParameterList(list),
        parameter_key: "k".to_string(),
    }))
    .into_element();
    assert_eq!(body.name, "soap:Body");
    assert_eq!(body.children.len(), 1);
    let XmlNode::Element(rpc) = &body.children[0] else { panic!() };
    assert_eq!(rpc.name, "cwmp:SetParameterValues");
    let array = child(rpc, "ParameterList");
    assert_eq!(array.attributes[0].name, "soapenc:arrayType");
    assert_eq!(array.attributes[0].value, "cwmp:ParameterValueStruct[12]");
    assert_eq!(array.children.len(), 12);
    let value = child(&array.children.iter().map(|c| match c { XmlNode::Element(e) => e, _ => panic!() }).nth(11).unwrap(), "Value");
    assert_eq!(value.attributes[0].value, "xsd:int");

    let unflagged = Envelope {
        headers: EnvelopeHeaders(vec![EnvelopeHeader::SessionTimeout(SessionTimeout { must_understand: None, content: 5 })]),
        body: EnvelopeBody::Response(Response::NoContent),
    };
    assert!(!unflagged.has_id());
    assert!(matches!(unflagged.into_element(), Err(CwmpError::MissingId)));
    let bare = Envelope {
        headers: EnvelopeHeaders(vec![]),
        body: EnvelopeBody::Request(Request::GetParameterValues(GetParameterValues::new())),
    };
    assert!(matches!(bare.into_element(), Err(CwmpError::MissingId)));

    let empty = GetParameterValues::new().into_element();
    let names = child(&empty, "ParameterNames");
    assert_eq!(names.attributes[0].value, "xsd:string[0]");
    assert!(names.children.is_empty());
}

#[test]
fn fault_encoding_round_trips() {
    let fault = Fault {
        fault_code: "Client".to_string(),
        fault_string: "CWMP fault".to_string(),
        detail: Some(CwmpFault {
            fault_code: 9003,
            fault_string: "Invalid arguments".to_string(),
            set_parameter_values_fault: vec![
                SetParameterValuesFault { parameter_name: "A.B".to_string(), fault_code: 9007, fault_string: "x".to_string() },
                SetParameterValuesFault { parameter_name: "A.C".to_string(), fault_code: 9008, fault_string: "y".to_string() },
            ],
        }),
    };
    let xml = render(&fault.into_element(), "soap:Fault");
    assert!(normalize_xml(&xml).contains("<detail><cwmp:Fault><FaultCode>9003</FaultCode>"));
    let back = Fault::from_element(&parse(&xml)).unwrap();
    let detail = back.detail.unwrap();
    assert_eq!(detail.set_parameter_values_fault.len(), 2);
    assert_eq!(detail.set_parameter_values_fault[1].parameter_name, "A.C");
    assert_eq!(detail.set_parameter_values_fault[1].fault_code, 9008);
}

#[test]
fn response_encoding() {
    let e = Response::SetParameterValuesResponse(SetParameterValuesResponse { status: false }).into_element().unwrap();
    assert_eq!(normalize_xml(&render(&e, "cwmp:SetParameterValuesResponse")), "<cwmp:SetParameterValuesResponse><Status>0</Status></cwmp:SetParameterValuesResponse>");
    assert!(Response::NoContent.into_element().is_none());
    let body = EnvelopeBody::Response(Response::NoContent).into_element();
    assert!(body.children.is_empty());
}

#[test]
fn decimal_numerals() {
    assert_eq!(format_decimal(0), "0");
    assert_eq!(format_decimal(40), "40");
    assert_eq!(format_decimal(18446744073709551615), "18446744073709551615");
    assert_eq!(parse_u32("40"), Some(40));
    assert_eq!(parse_u32("0042"), Some(42));
    assert_eq!(parse_u32("4294967295"), Some(4294967295));
    assert_eq!(parse_u32("4294967296"), None);
    assert_eq!(parse_u32(""), None);
    assert_eq!(parse_u32("4a"), None);
}
